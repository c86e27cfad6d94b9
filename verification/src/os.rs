//! The calls into the operating system that the library relies on:
//! provisioning the temporary directory through `tempfile`, and creating
//! directories and writing files through `touch`. Each item here is trusted;
//! its doc comment names the outside function it relies on.

use vstd::prelude::*;
use crate::path_model::has_nul;

verus! {

/// `tempfile::TempDir`: a handle that owns a temporary directory; the
/// directory and everything beneath it are removed when the handle drops.
#[verifier::external_type_specification]
#[verifier::external_body]
pub struct ExTempDir(tempfile::TempDir);

/// Relies on `tempfile::tempdir`: on success the returned handle owns a
/// newly created, uniquely named, empty directory under the system
/// temporary location, removed with its contents when the handle drops.
/// An operating-system failure comes back as an error message.
#[verifier::external_body]
pub(crate) fn create_temp_dir() -> (r: Result<tempfile::TempDir, String>) {
    match tempfile::tempdir() {
        Ok(d) => Ok(d),
        Err(e) => Err(format!("{}", e)),
    }
}

/// Relies on `tempfile::TempDir::path`: returns the path of the directory
/// the handle owns. The operating system created a directory at that path,
/// so the path is non-empty and holds no NUL character; `None` comes back
/// only when the path is not valid UTF-8.
#[verifier::external_body]
pub(crate) fn temp_dir_root(d: &tempfile::TempDir) -> (r: Option<String>)
    ensures
        r matches Some(s) ==> s@.len() > 0 && !has_nul(s@),
{
    match d.path().to_str() {
        Some(s) => Some(s.to_string()),
        None => None,
    }
}

/// Relies on `touch::file::write` with `truncate` set: creates the missing
/// parent directories of `path`, then creates or truncates the file there
/// and writes `content` to it in full. An operating-system failure comes
/// back as an error message. With empty `content` it would write nothing,
/// so the caller routes that case through `create_file` instead.
#[verifier::external_body]
pub(crate) fn write_file(path: &str, content: &str) -> (r: Result<(), String>) {
    match touch::file::write(path, content, true) {
        Ok(()) => Ok(()),
        Err(e) => Err(format!("{}", e)),
    }
}

/// Relies on `touch::file::create` with `truncate` set: creates the missing
/// parent directories of `path`, then creates or truncates the file there,
/// leaving it empty; the open handle it returns is dropped, which closes
/// the file. An operating-system failure comes back as an error message.
#[verifier::external_body]
pub(crate) fn create_file(path: &str) -> (r: Result<(), String>) {
    match touch::file::create(path, true) {
        Ok(_) => Ok(()),
        Err(e) => Err(format!("{}", e)),
    }
}

} // verus!
