//! Temporary files for tests.
//!
//! A [`TestFiles`] value owns a freshly created temporary directory. Files
//! can be declared at slash-separated relative paths with given text
//! content; intermediate directories are created as needed, and an existing
//! file at the same path is truncated and overwritten. When the value is
//! dropped, the directory and everything beneath it are removed.

use vstd::prelude::*;

pub mod path_model;
mod os;

use crate::path_model::{has_nul, join_seq};

verus! {

/// Why constructing the temporary directory or declaring a file failed.
#[derive(Debug)]
pub enum TestFilesError {
    /// The relative path cannot be a platform path: it holds a NUL character.
    PathError { path: String },
    /// The operating system failed to create a directory or write the file.
    FileWriteError { message: String },
    /// The operating system failed to provision the temporary directory.
    TempDirError { message: String },
}

/// A freshly created temporary directory in which files can be declared at
/// slash-separated relative paths. The directory and everything beneath it
/// are removed when this value is dropped.
pub struct TestFiles {
    // held for its drop, which removes the directory tree
    dir: tempfile::TempDir,
    root: String,
}

impl View for TestFiles {
    type V = Seq<char>;

    /// The absolute path of the root temporary directory.
    closed spec fn view(&self) -> Seq<char> {
        self.root@
    }
}

impl TestFiles {
    /// The root path came from the operating system: it is non-empty and
    /// holds no NUL character.
    #[verifier::type_invariant]
    spec fn wf(self) -> bool {
        self.root@.len() > 0 && !has_nul(self.root@)
    }

    /// Creates a new, uniquely named, empty temporary directory and returns
    /// a value owning it; the directory is removed when the value is
    /// dropped. Fails only when the operating system cannot provision the
    /// directory, or hands back a path that is not valid UTF-8.
    pub fn try_new() -> (r: Result<TestFiles, TestFilesError>)
        ensures
            r matches Ok(t) ==> t@.len() > 0 && !has_nul(t@),
            r matches Err(e) ==> e is TempDirError,
    {
        match os::create_temp_dir() {
            Ok(dir) => match os::temp_dir_root(&dir) {
                Some(root) => Ok(TestFiles { dir, root }),
                None => Err(TestFilesError::TempDirError {
                    message: "temporary directory path is not valid UTF-8".to_owned(),
                }),
            },
            Err(message) => Err(TestFilesError::TempDirError { message }),
        }
    }

    /// Returns the absolute path of the root temporary directory.
    pub fn path(&self) -> (r: &str)
        ensures
            r@ == self@,
            r@.len() > 0,
            !has_nul(r@),
    {
        proof {
            use_type_invariant(self);
        }
        self.root.as_str()
    }

    /// The absolute path for a file at `relative_path`: the root, a
    /// separator, and the relative path.
    fn slash(&self, relative_path: &str) -> (r: String)
        ensures
            r@ == join_seq(self@, relative_path@),
    {
        crate::path_model::join(self.root.as_str(), relative_path)
    }

    /// Creates a file at `path`, relative to the root, with `content` as its
    /// full text, creating every missing intermediate directory; a file
    /// already at that path is truncated and overwritten. On success the
    /// same value comes back, so calls can be chained. Fails with
    /// [`TestFilesError::PathError`] exactly when `path` holds a NUL
    /// character, and with [`TestFilesError::FileWriteError`] when the
    /// operating system refuses a directory or file operation.
    pub fn try_file<'a>(&'a self, path: &str, content: &str) -> (r: Result<
        &'a TestFiles,
        TestFilesError,
    >)
        ensures
            r matches Ok(me) ==> me == self && !has_nul(path@),
            has_nul(path@) ==> r is Err,
            r is Err ==> (r->Err_0 is PathError <==> has_nul(path@)),
            r matches Err(TestFilesError::PathError { path: p }) ==> p@ == path@,
            r is Err && !has_nul(path@) ==> r->Err_0 is FileWriteError,
    {
        if crate::path_model::contains_nul(path) {
            return Err(TestFilesError::PathError { path: path.to_owned() });
        }
        let full = self.slash(path);
        let written = if content.is_empty() {
            os::create_file(full.as_str())
        } else {
            os::write_file(full.as_str(), content)
        };
        match written {
            Ok(()) => Ok(self),
            Err(message) => Err(TestFilesError::FileWriteError { message }),
        }
    }
}

} // verus!
