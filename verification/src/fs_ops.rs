//! Thin trusted adapter over the host filesystem: create, probe and remove
//! the single path a handle owns. Each function makes one call into an
//! outside crate; nothing here retries or interprets beyond mapping the
//! outside error onto [`FsError`].

use std::io::Write;
use vstd::prelude::*;

verus! {

/// Why a filesystem operation failed.
#[derive(Clone, Copy, Debug, PartialEq, Eq, Structural)]
pub enum FsError {
    NotFound,
    AlreadyExists,
    PermissionDenied,
    Other,
}

/// What a probe found at a path.
#[derive(Clone, Copy, Debug, PartialEq, Eq, Structural)]
pub enum PathStatus {
    Missing,
    Directory,
    Other,
}

/// Relies on `rustix::fs::open` with `CREATE | EXCL` and mode `0o600`:
/// creates a new regular file, readable and writable by the owner only,
/// and fails if anything already exists at `path`.
#[verifier::external_body]
pub(crate) fn create_file_at(path: &String) -> (r: Result<(), FsError>) {
    match rustix::fs::open(
        path.as_str(),
        rustix::fs::OFlags::WRONLY | rustix::fs::OFlags::CREATE | rustix::fs::OFlags::EXCL,
        rustix::fs::Mode::from_raw_mode(0o600),
    ) {
        Ok(_fd) => Ok(()),
        Err(e) if e == rustix::io::Errno::NOENT => Err(FsError::NotFound),
        Err(e) if e == rustix::io::Errno::EXIST => Err(FsError::AlreadyExists),
        Err(e) if e == rustix::io::Errno::ACCESS => Err(FsError::PermissionDenied),
        Err(_) => Err(FsError::Other),
    }
}

/// Relies on `rustix::fs::mkdir` with mode `0o700`: creates a single new
/// directory, accessible by the owner only, without creating missing
/// ancestors, and fails if anything already exists at `path`.
#[verifier::external_body]
pub(crate) fn create_dir_at(path: &String) -> (r: Result<(), FsError>) {
    match rustix::fs::mkdir(path.as_str(), rustix::fs::Mode::from_raw_mode(0o700)) {
        Ok(()) => Ok(()),
        Err(e) if e == rustix::io::Errno::NOENT => Err(FsError::NotFound),
        Err(e) if e == rustix::io::Errno::EXIST => Err(FsError::AlreadyExists),
        Err(e) if e == rustix::io::Errno::ACCESS => Err(FsError::PermissionDenied),
        Err(_) => Err(FsError::Other),
    }
}

/// Relies on `rustix::fs::stat`: reports whether anything lives at `path`
/// and whether it is a directory, following symlinks; a probe that errors
/// counts as nothing found.
#[verifier::external_body]
pub(crate) fn probe_path(path: &String) -> (st: PathStatus)
    no_unwind
{
    match rustix::fs::stat(path.as_str()) {
        Ok(s) => {
            if rustix::fs::FileType::from_raw_mode(s.st_mode).is_dir() {
                PathStatus::Directory
            } else {
                PathStatus::Other
            }
        },
        Err(_) => PathStatus::Missing,
    }
}

/// Relies on `rustix::fs::unlink`: removes the non-directory at `path`.
#[verifier::external_body]
pub(crate) fn remove_file_at(path: &String) -> (r: Result<(), FsError>)
    no_unwind
{
    match rustix::fs::unlink(path.as_str()) {
        Ok(()) => Ok(()),
        Err(e) if e == rustix::io::Errno::NOENT => Err(FsError::NotFound),
        Err(e) if e == rustix::io::Errno::ACCESS => Err(FsError::PermissionDenied),
        Err(_) => Err(FsError::Other),
    }
}

/// Relies on `remove_dir_all::remove_dir_all`: removes the directory at
/// `path` together with all its descendants.
#[verifier::external_body]
pub(crate) fn remove_dir_recursive_at(path: &String) -> (r: Result<(), FsError>)
    no_unwind
{
    match remove_dir_all::remove_dir_all(path.as_str()) {
        Ok(()) => Ok(()),
        Err(e) if e.kind() == std::io::ErrorKind::NotFound => Err(FsError::NotFound),
        Err(e) if e.kind() == std::io::ErrorKind::PermissionDenied => Err(FsError::PermissionDenied),
        Err(_) => Err(FsError::Other),
    }
}

/// Relies on `tempfile::env::temp_dir`: yields the host's temporary
/// directory, the default base under which fresh names are placed.
#[verifier::external_body]
pub(crate) fn default_base_dir() -> (r: String) {
    tempfile::env::temp_dir().to_string_lossy().into_owned()
}

/// Relies on `std::io::stderr`: reports a disposal failure without ending
/// the process, for failures downgraded to a log line.
#[verifier::external_body]
pub(crate) fn log_disposal_failure(path: &String)
    no_unwind
{
    let _ = writeln!(std::io::stderr(), "mktemp: failed to remove temporary path {}", path);
}

/// Relies on `rustix::process::kill_process` sending `SIGABRT` to the pid
/// of `rustix::process::getpid`: reports the disposal failure and ends the
/// process at once; the call does not return.
#[verifier::external_body]
pub(crate) fn abort_on_disposal_failure(path: &String)
    no_unwind
{
    let _ = writeln!(std::io::stderr(), "mktemp: failed to remove temporary path {}", path);
    let _ = rustix::process::kill_process(rustix::process::getpid(), rustix::process::Signal::ABORT);
}

} // verus!
