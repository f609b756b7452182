//! The scoped path handle: one freshly named filesystem path, owned from
//! construction until its scope ends, released, or explicitly disposed.

use vstd::prelude::*;

use crate::fs_ops::FsError;
use crate::fs_ops::PathStatus;
use crate::fs_ops::abort_on_disposal_failure;
use crate::fs_ops::create_dir_at;
use crate::fs_ops::create_file_at;
use crate::fs_ops::default_base_dir;
use crate::fs_ops::log_disposal_failure;
use crate::fs_ops::probe_path;
use crate::fs_ops::remove_dir_recursive_at;
use crate::fs_ops::remove_file_at;
use crate::path_gen::create_path_in;
use crate::path_gen::create_path_with_ext_in;
use crate::path_gen::generated_path;
use crate::path_gen::is_token;

verus! {

/// What kind of backing object a handle's constructor made: a regular
/// file, a directory, or nothing yet (an unbound path).
#[derive(Clone, Copy, Debug, PartialEq, Eq, Structural)]
pub enum Kind {
    File,
    Directory,
    Unbound,
}

/// How disposal treats a failure to remove the backing object.
#[derive(Clone, Copy, Debug, PartialEq, Eq, Structural)]
pub enum DisposalPolicy {
    /// Swallow every disposal failure silently.
    PanicNever,
    /// Swallow only a missing backing object; any other failure is fatal.
    PanicUnlessNotFound,
    /// Every disposal failure is fatal, a missing backing object included.
    PanicAlways,
}

/// What a disposal failure comes to under the configured policy.
#[derive(Clone, Copy, Debug, PartialEq, Eq, Structural)]
pub enum FailureVerdict {
    /// Swallowed silently.
    Ignore,
    /// Reported on the error stream; the process continues.
    Log,
    /// A programmer-visible crash: the process is ended at once.
    Fatal,
}

/// Which removal operation disposal applies.
#[derive(Clone, Copy, Debug, PartialEq, Eq, Structural)]
pub enum DisposalAction {
    DoNothing,
    RemoveDir,
    RemoveFile,
}

/// What one disposal did.
#[derive(Clone, Copy, Debug, PartialEq, Eq, Structural)]
pub enum DisposalReport {
    /// The handle was released or already disposed: no action was taken.
    Inert,
    /// Nothing was ever created at an unbound path: nothing to remove.
    NothingThere,
    /// The backing directory was removed, descendants included.
    RemovedDir,
    /// The backing file (or other non-directory object) was removed.
    RemovedFile,
    /// Removal failed and the policy swallowed the failure.
    FailedIgnored(FsError),
    /// Removal failed during an unwind; the failure was only logged.
    FailedLogged(FsError),
    /// Removal failed fatally. The process ends before this value is ever
    /// observed; the variant exists so the contract covers every verdict.
    FailedFatal(FsError),
}

/// The mathematical state of a handle.
pub ghost struct TempModel {
    pub path: Seq<char>,
    pub kind: Kind,
    pub released: bool,
    pub disposed: bool,
    pub policy: DisposalPolicy,
}

/// A handle freshly returned by a constructor: the given kind, ownership
/// not yet released, not yet disposed, and the default failure policy.
pub open spec fn fresh_handle(m: TempModel, kind: Kind) -> bool {
    m.kind == kind && !m.released && !m.disposed && m.policy == DisposalPolicy::PanicAlways
}

/// The handle's path was synthesized under `base` from some fresh token,
/// carrying `ext`.
pub open spec fn path_generated_in(m: TempModel, base: Seq<char>, ext: Seq<char>) -> bool {
    exists|t: Seq<char>| is_token(t) && m.path == generated_path(base, t, ext)
}

/// The handle's path was synthesized under some base directory.
pub open spec fn path_generated(m: TempModel, ext: Seq<char>) -> bool {
    exists|base: Seq<char>| path_generated_in(m, base, ext)
}

/// Which removal operation disposal applies, given the handle's flags and
/// what the probe found at the path.
pub open spec fn disposal_action(released: bool, disposed: bool, status: PathStatus) -> DisposalAction {
    if released || disposed {
        DisposalAction::DoNothing
    } else {
        match status {
            PathStatus::Missing => DisposalAction::DoNothing,
            PathStatus::Directory => DisposalAction::RemoveDir,
            PathStatus::Other => DisposalAction::RemoveFile,
        }
    }
}

/// What a disposal failure comes to: the policy decides, except that a
/// would-be fatal verdict during an unwind already in progress downgrades
/// to a log line.
pub open spec fn failure_verdict(policy: DisposalPolicy, error: FsError, unwinding: bool) -> FailureVerdict {
    let base = match policy {
        DisposalPolicy::PanicNever => FailureVerdict::Ignore,
        DisposalPolicy::PanicUnlessNotFound => if error == FsError::NotFound {
            FailureVerdict::Ignore
        } else {
            FailureVerdict::Fatal
        },
        DisposalPolicy::PanicAlways => FailureVerdict::Fatal,
    };
    if base == FailureVerdict::Fatal && unwinding {
        FailureVerdict::Log
    } else {
        base
    }
}

/// The report a failed removal yields under the configured policy.
pub open spec fn failure_report(policy: DisposalPolicy, error: FsError, unwinding: bool) -> DisposalReport {
    match failure_verdict(policy, error, unwinding) {
        FailureVerdict::Ignore => DisposalReport::FailedIgnored(error),
        FailureVerdict::Log => DisposalReport::FailedLogged(error),
        FailureVerdict::Fatal => DisposalReport::FailedFatal(error),
    }
}

/// Compute which removal operation disposal applies.
pub fn decide_disposal_action(released: bool, disposed: bool, status: PathStatus) -> (a: DisposalAction)
    ensures
        a == disposal_action(released, disposed, status),
    no_unwind
{
    if released || disposed {
        DisposalAction::DoNothing
    } else {
        match status {
            PathStatus::Missing => DisposalAction::DoNothing,
            PathStatus::Directory => DisposalAction::RemoveDir,
            PathStatus::Other => DisposalAction::RemoveFile,
        }
    }
}

/// Compute what a disposal failure comes to under a policy.
pub fn decide_failure_verdict(policy: DisposalPolicy, error: FsError, unwinding: bool) -> (v: FailureVerdict)
    ensures
        v == failure_verdict(policy, error, unwinding),
    no_unwind
{
    let base = match policy {
        DisposalPolicy::PanicNever => FailureVerdict::Ignore,
        DisposalPolicy::PanicUnlessNotFound => match error {
            FsError::NotFound => FailureVerdict::Ignore,
            _ => FailureVerdict::Fatal,
        },
        DisposalPolicy::PanicAlways => FailureVerdict::Fatal,
    };
    match base {
        FailureVerdict::Fatal => if unwinding {
            FailureVerdict::Log
        } else {
            base
        },
        _ => base,
    }
}

/// Put a removal failure to the configured policy.
fn run_failure_verdict(path: &String, policy: DisposalPolicy, error: FsError, unwinding: bool) -> (r: DisposalReport)
    ensures
        r == failure_report(policy, error, unwinding),
    no_unwind
{
    match decide_failure_verdict(policy, error, unwinding) {
        FailureVerdict::Ignore => DisposalReport::FailedIgnored(error),
        FailureVerdict::Log => {
            log_disposal_failure(path);
            DisposalReport::FailedLogged(error)
        },
        FailureVerdict::Fatal => {
            abort_on_disposal_failure(path);
            DisposalReport::FailedFatal(error)
        },
    }
}

/// A handle to one temporary filesystem path. Disposing the handle — done
/// once, when the owning scope ends — removes whatever backs the path,
/// unless ownership was released first.
#[derive(Debug)]
pub struct Temp {
    path: String,
    kind: Kind,
    released: bool,
    disposed: bool,
    policy: DisposalPolicy,
}

impl View for Temp {
    type V = TempModel;

    closed spec fn view(&self) -> TempModel {
        TempModel {
            path: self.path@,
            kind: self.kind,
            released: self.released,
            disposed: self.disposed,
            policy: self.policy,
        }
    }
}

impl Temp {
    /// Create a temporary file under the host's temporary directory.
    pub fn new_file() -> (r: Result<Temp, FsError>)
        ensures
            r matches Ok(t) ==> fresh_handle(t@, Kind::File) && path_generated(t@, Seq::<char>::empty()),
    {
        let base = default_base_dir();
        let r = Self::new_file_in(base.as_str());
        match r {
            Ok(t) => {
                proof {
                    assert(path_generated_in(t@, base@, Seq::<char>::empty()));
                }
                Ok(t)
            },
            Err(e) => Err(e),
        }
    }

    /// Create a temporary file in an existing directory.
    pub fn new_file_in(directory: &str) -> (r: Result<Temp, FsError>)
        ensures
            r matches Ok(t) ==> fresh_handle(t@, Kind::File) && path_generated_in(
                t@,
                directory@,
                Seq::<char>::empty(),
            ),
    {
        let path = create_path_in(directory);
        let ghost p = path@;
        match create_file_at(&path) {
            Ok(()) => {
                let t = Temp {
                    path,
                    kind: Kind::File,
                    released: false,
                    disposed: false,
                    policy: DisposalPolicy::PanicAlways,
                };
                proof {
                    let tok = choose|tk: Seq<char>|
                        is_token(tk) && p == generated_path(directory@, tk, Seq::<char>::empty());
                    assert(is_token(tok) && t@.path == generated_path(
                        directory@,
                        tok,
                        Seq::<char>::empty(),
                    ));
                }
                Ok(t)
            },
            Err(e) => Err(e),
        }
    }

    /// Create a temporary directory under the host's temporary directory.
    pub fn new_dir() -> (r: Result<Temp, FsError>)
        ensures
            r matches Ok(t) ==> fresh_handle(t@, Kind::Directory) && path_generated(
                t@,
                Seq::<char>::empty(),
            ),
    {
        let base = default_base_dir();
        let r = Self::new_dir_in(base.as_str());
        match r {
            Ok(t) => {
                proof {
                    assert(path_generated_in(t@, base@, Seq::<char>::empty()));
                }
                Ok(t)
            },
            Err(e) => Err(e),
        }
    }

    /// Create a temporary directory in an existing directory.
    pub fn new_dir_in(directory: &str) -> (r: Result<Temp, FsError>)
        ensures
            r matches Ok(t) ==> fresh_handle(t@, Kind::Directory) && path_generated_in(
                t@,
                directory@,
                Seq::<char>::empty(),
            ),
    {
        let path = create_path_in(directory);
        let ghost p = path@;
        match create_dir_at(&path) {
            Ok(()) => {
                let t = Temp {
                    path,
                    kind: Kind::Directory,
                    released: false,
                    disposed: false,
                    policy: DisposalPolicy::PanicAlways,
                };
                proof {
                    let tok = choose|tk: Seq<char>|
                        is_token(tk) && p == generated_path(directory@, tk, Seq::<char>::empty());
                    assert(is_token(tok) && t@.path == generated_path(
                        directory@,
                        tok,
                        Seq::<char>::empty(),
                    ));
                }
                Ok(t)
            },
            Err(e) => Err(e),
        }
    }

    /// Create a temporary file with the given extension, accepted with or
    /// without a leading `.`, under the host's temporary directory.
    pub fn new_file_with_extension(extension: &str) -> (r: Result<Temp, FsError>)
        ensures
            r matches Ok(t) ==> fresh_handle(t@, Kind::File) && path_generated(t@, extension@),
    {
        let base = default_base_dir();
        let r = Self::new_file_with_extension_in(base.as_str(), extension);
        match r {
            Ok(t) => {
                proof {
                    assert(path_generated_in(t@, base@, extension@));
                }
                Ok(t)
            },
            Err(e) => Err(e),
        }
    }

    /// Create a temporary file with the given extension, accepted with or
    /// without a leading `.`, in an existing directory.
    pub fn new_file_with_extension_in(directory: &str, extension: &str) -> (r: Result<Temp, FsError>)
        ensures
            r matches Ok(t) ==> fresh_handle(t@, Kind::File) && path_generated_in(
                t@,
                directory@,
                extension@,
            ),
    {
        let path = create_path_with_ext_in(directory, extension);
        let ghost p = path@;
        match create_file_at(&path) {
            Ok(()) => {
                let t = Temp {
                    path,
                    kind: Kind::File,
                    released: false,
                    disposed: false,
                    policy: DisposalPolicy::PanicAlways,
                };
                proof {
                    let tok = choose|tk: Seq<char>|
                        is_token(tk) && p == generated_path(directory@, tk, extension@);
                    assert(is_token(tok) && t@.path == generated_path(directory@, tok, extension@));
                }
                Ok(t)
            },
            Err(e) => Err(e),
        }
    }

    /// Synthesize a fresh unbound path under the host's temporary
    /// directory: nothing is created, so this cannot fail.
    pub fn new_path() -> (t: Temp)
        ensures
            fresh_handle(t@, Kind::Unbound) && path_generated(t@, Seq::<char>::empty()),
    {
        let base = default_base_dir();
        let t = Self::new_path_in(base.as_str());
        proof {
            assert(path_generated_in(t@, base@, Seq::<char>::empty()));
        }
        t
    }

    /// Synthesize a fresh unbound path in an existing directory: nothing
    /// is created, so this cannot fail.
    pub fn new_path_in(directory: &str) -> (t: Temp)
        ensures
            fresh_handle(t@, Kind::Unbound) && path_generated_in(t@, directory@, Seq::<char>::empty()),
    {
        let path = create_path_in(directory);
        let ghost p = path@;
        let t = Temp {
            path,
            kind: Kind::Unbound,
            released: false,
            disposed: false,
            policy: DisposalPolicy::PanicAlways,
        };
        proof {
            let tok = choose|tk: Seq<char>|
                is_token(tk) && p == generated_path(directory@, tk, Seq::<char>::empty());
            assert(is_token(tok) && t@.path == generated_path(directory@, tok, Seq::<char>::empty()));
        }
        t
    }

    /// The current path value, read only: no ownership moves.
    pub fn path(&self) -> (r: &str)
        ensures
            r@ == self@.path,
    {
        self.path.as_str()
    }

    /// The current path value as an owned string.
    pub fn to_path_buf(&self) -> (r: String)
        ensures
            r@ == self@.path,
    {
        self.path.clone()
    }

    /// Release ownership of the backing object: disposal becomes a no-op
    /// and the caller takes over the path's lifecycle. Releasing again, or
    /// disposing afterwards, is safe and inert.
    pub fn release(&mut self) -> (r: String)
        ensures
            final(self)@ == released_model(old(self)@),
            r@ == old(self)@.path,
    {
        self.released = true;
        self.path.clone()
    }

    /// Choose how a failure to remove the backing object is treated when
    /// this handle is disposed.
    pub fn set_disposal_policy(&mut self, policy: DisposalPolicy)
        ensures
            final(self)@.policy == policy,
            final(self)@.path == old(self)@.path,
            final(self)@.kind == old(self)@.kind,
            final(self)@.released == old(self)@.released,
            final(self)@.disposed == old(self)@.disposed,
    {
        self.policy = policy;
    }

    /// Dispose the handle: remove whatever backs the path, unless
    /// ownership was released or a disposal already ran. Run this when the
    /// owning scope ends; a later disposal finds the handle inert.
    pub fn dispose(&mut self) -> (r: DisposalReport)
        ensures
            final(self)@.path == old(self)@.path,
            final(self)@.kind == old(self)@.kind,
            final(self)@.policy == old(self)@.policy,
            final(self)@.released == old(self)@.released,
            final(self)@.disposed,
            (r == DisposalReport::Inert) <==> (old(self)@.released || old(self)@.disposed),
            r == DisposalReport::NothingThere ==> old(self)@.kind == Kind::Unbound,
            r matches DisposalReport::FailedIgnored(e) ==> r == failure_report(old(self)@.policy, e, false),
            r matches DisposalReport::FailedLogged(e) ==> r == failure_report(old(self)@.policy, e, false),
            r matches DisposalReport::FailedFatal(e) ==> r == failure_report(old(self)@.policy, e, false),
            !(r is FailedLogged),
        no_unwind
    {
        self.dispose_inner(false)
    }

    /// Dispose the handle from a destructor hook that runs while an
    /// unrelated unwind is already in progress: a would-be fatal failure
    /// downgrades to a log line, so a second fatal failure never starts on
    /// top of the first.
    pub fn dispose_while_unwinding(&mut self) -> (r: DisposalReport)
        ensures
            final(self)@.path == old(self)@.path,
            final(self)@.kind == old(self)@.kind,
            final(self)@.policy == old(self)@.policy,
            final(self)@.released == old(self)@.released,
            final(self)@.disposed,
            (r == DisposalReport::Inert) <==> (old(self)@.released || old(self)@.disposed),
            r == DisposalReport::NothingThere ==> old(self)@.kind == Kind::Unbound,
            r matches DisposalReport::FailedIgnored(e) ==> r == failure_report(old(self)@.policy, e, true),
            r matches DisposalReport::FailedLogged(e) ==> r == failure_report(old(self)@.policy, e, true),
            !(r is FailedFatal),
        no_unwind
    {
        let r = self.dispose_inner(true);
        proof {
            if r is FailedFatal {
                let e = r->FailedFatal_0;
                assert(failure_verdict(old(self)@.policy, e, true) != FailureVerdict::Fatal);
            }
        }
        r
    }

    /// One disposal pass: decide from the flags and a probe of the path,
    /// remove what must go, and put a failure to the configured policy.
    fn dispose_inner(&mut self, unwinding: bool) -> (r: DisposalReport)
        ensures
            final(self)@.path == old(self)@.path,
            final(self)@.kind == old(self)@.kind,
            final(self)@.policy == old(self)@.policy,
            final(self)@.released == old(self)@.released,
            final(self)@.disposed,
            (r == DisposalReport::Inert) <==> (old(self)@.released || old(self)@.disposed),
            r == DisposalReport::NothingThere ==> old(self)@.kind == Kind::Unbound,
            r matches DisposalReport::FailedIgnored(e) ==> r == failure_report(old(self)@.policy, e, unwinding),
            r matches DisposalReport::FailedLogged(e) ==> r == failure_report(old(self)@.policy, e, unwinding),
            r matches DisposalReport::FailedFatal(e) ==> r == failure_report(old(self)@.policy, e, unwinding),
        no_unwind
    {
        if self.released || self.disposed {
            self.disposed = true;
            return DisposalReport::Inert;
        }
        self.disposed = true;
        let status = probe_path(&self.path);
        let action = decide_disposal_action(false, false, status);
        match action {
            DisposalAction::DoNothing => {
                match self.kind {
                    Kind::Unbound => DisposalReport::NothingThere,
                    Kind::File | Kind::Directory => run_failure_verdict(
                        &self.path,
                        self.policy,
                        FsError::NotFound,
                        unwinding,
                    ),
                }
            },
            DisposalAction::RemoveDir => {
                match remove_dir_recursive_at(&self.path) {
                    Ok(()) => DisposalReport::RemovedDir,
                    Err(e) => run_failure_verdict(&self.path, self.policy, e, unwinding),
                }
            },
            DisposalAction::RemoveFile => {
                match remove_file_at(&self.path) {
                    Ok(()) => DisposalReport::RemovedFile,
                    Err(e) => run_failure_verdict(&self.path, self.policy, e, unwinding),
                }
            },
        }
    }
}

/// An unreleased, undisposed handle whose path still has something behind
/// it is disposed with the matching removal action, never silently kept.
pub proof fn lemma_unreleased_disposal_removes(status: PathStatus)
    requires
        status != PathStatus::Missing,
    ensures
        disposal_action(false, false, status) == (if status == PathStatus::Directory {
            DisposalAction::RemoveDir
        } else {
            DisposalAction::RemoveFile
        }),
{
}

/// A released handle's disposal does nothing, whatever stands at the path.
pub proof fn lemma_released_disposal_inert(disposed: bool, status: PathStatus)
    ensures
        disposal_action(true, disposed, status) == DisposalAction::DoNothing,
{
}

/// Disposal is idempotent: once a handle has disposed, a later disposal
/// applies no removal action.
pub proof fn lemma_disposed_disposal_inert(released: bool, status: PathStatus)
    ensures
        disposal_action(released, true, status) == DisposalAction::DoNothing,
{
}

/// The handle state that releasing yields: only the `released` flag moves,
/// one way.
pub open spec fn released_model(m: TempModel) -> TempModel {
    TempModel { path: m.path, kind: m.kind, released: true, disposed: m.disposed, policy: m.policy }
}

/// Releasing is idempotent on the handle's state: releasing twice is
/// releasing once.
pub proof fn lemma_release_idempotent(m: TempModel)
    ensures
        released_model(released_model(m)) == released_model(m),
{
}

/// Under `PanicNever` no disposal failure is ever fatal.
pub proof fn lemma_panic_never_not_fatal(error: FsError, unwinding: bool)
    ensures
        failure_verdict(DisposalPolicy::PanicNever, error, unwinding) != FailureVerdict::Fatal,
{
}

/// Under the default policy, every disposal failure outside an unwind is
/// fatal, a missing backing object included.
pub proof fn lemma_default_policy_fatal(error: FsError)
    ensures
        failure_verdict(DisposalPolicy::PanicAlways, error, false) == FailureVerdict::Fatal,
{
}

/// While an unwind is already in progress a disposal failure is never
/// fatal: a would-be fatal verdict downgrades to a log line.
pub proof fn lemma_unwind_never_fatal(policy: DisposalPolicy, error: FsError)
    ensures
        failure_verdict(policy, error, true) != FailureVerdict::Fatal,
{
}

} // verus!
