use mktemp::{
    DisposalAction, DisposalPolicy, DisposalReport, FailureVerdict, FsError, PathStatus, Temp,
    decide_disposal_action, decide_failure_verdict,
};

fn path_exists(path: &str) -> bool {
    rustix::fs::stat(path).is_ok()
}

#[test]
fn release_is_idempotent() {
    let mut t = Temp::new_path();
    let first = t.release();
    let second = t.release();
    assert_eq!(first, second);
    assert!(matches!(t.dispose(), DisposalReport::Inert));
}

#[test]
fn dispose_is_idempotent() {
    let mut t = Temp::new_file().unwrap();
    let path = t.to_path_buf();
    let first = t.dispose();
    assert!(matches!(first, DisposalReport::RemovedFile));
    assert!(!path_exists(&path));
    let second = t.dispose();
    assert!(matches!(second, DisposalReport::Inert));
}

#[test]
fn released_handle_keeps_the_file() {
    let mut t = Temp::new_file().unwrap();
    let path = t.release();
    let report = t.dispose();
    assert!(matches!(report, DisposalReport::Inert));
    assert!(path_exists(&path));
    rustix::fs::unlink(path.as_str()).unwrap();
}

#[test]
fn panic_never_survives_early_deletion() {
    let mut t = Temp::new_file().unwrap();
    t.set_disposal_policy(DisposalPolicy::PanicNever);
    rustix::fs::unlink(t.path()).unwrap();
    let report = t.dispose();
    assert_eq!(report, DisposalReport::FailedIgnored(FsError::NotFound));
}

#[test]
fn unwinding_disposal_downgrades_to_log() {
    let mut t = Temp::new_file().unwrap();
    rustix::fs::unlink(t.path()).unwrap();
    let report = t.dispose_while_unwinding();
    assert_eq!(report, DisposalReport::FailedLogged(FsError::NotFound));
}

#[test]
fn default_policy_treats_not_found_as_fatal() {
    let v = decide_failure_verdict(DisposalPolicy::PanicAlways, FsError::NotFound, false);
    assert_eq!(v, FailureVerdict::Fatal);
    let v = decide_failure_verdict(DisposalPolicy::PanicAlways, FsError::Other, false);
    assert_eq!(v, FailureVerdict::Fatal);
}

#[test]
fn panic_never_ignores_every_failure() {
    let errors = [
        FsError::NotFound,
        FsError::AlreadyExists,
        FsError::PermissionDenied,
        FsError::Other,
    ];
    for e in errors {
        assert_eq!(
            decide_failure_verdict(DisposalPolicy::PanicNever, e, false),
            FailureVerdict::Ignore
        );
        assert_eq!(
            decide_failure_verdict(DisposalPolicy::PanicNever, e, true),
            FailureVerdict::Ignore
        );
    }
}

#[test]
fn unless_not_found_spares_only_not_found() {
    let v = decide_failure_verdict(DisposalPolicy::PanicUnlessNotFound, FsError::NotFound, false);
    assert_eq!(v, FailureVerdict::Ignore);
    let v = decide_failure_verdict(DisposalPolicy::PanicUnlessNotFound, FsError::PermissionDenied, false);
    assert_eq!(v, FailureVerdict::Fatal);
}

#[test]
fn no_fatal_verdict_during_unwind() {
    let policies = [
        DisposalPolicy::PanicNever,
        DisposalPolicy::PanicUnlessNotFound,
        DisposalPolicy::PanicAlways,
    ];
    let errors = [
        FsError::NotFound,
        FsError::AlreadyExists,
        FsError::PermissionDenied,
        FsError::Other,
    ];
    for p in policies {
        for e in errors {
            assert_ne!(decide_failure_verdict(p, e, true), FailureVerdict::Fatal);
        }
    }
}

#[test]
fn released_or_disposed_handles_get_no_action() {
    let statuses = [PathStatus::Missing, PathStatus::Directory, PathStatus::Other];
    for st in statuses {
        assert_eq!(decide_disposal_action(true, false, st), DisposalAction::DoNothing);
        assert_eq!(decide_disposal_action(false, true, st), DisposalAction::DoNothing);
        assert_eq!(decide_disposal_action(true, true, st), DisposalAction::DoNothing);
    }
}

#[test]
fn live_handles_get_the_matching_action() {
    assert_eq!(
        decide_disposal_action(false, false, PathStatus::Directory),
        DisposalAction::RemoveDir
    );
    assert_eq!(
        decide_disposal_action(false, false, PathStatus::Other),
        DisposalAction::RemoveFile
    );
    assert_eq!(
        decide_disposal_action(false, false, PathStatus::Missing),
        DisposalAction::DoNothing
    );
}

#[test]
fn generated_name_is_a_fresh_token() {
    let mut t = Temp::new_path();
    let path = t.to_path_buf();
    let name = path.rsplit('/').next().unwrap();
    assert_eq!(name.len(), 32);
    assert!(name.chars().all(|c| c.is_ascii_hexdigit() && !c.is_ascii_uppercase()));
    t.dispose();
}

#[test]
fn generated_names_differ() {
    let mut a = Temp::new_path();
    let mut b = Temp::new_path();
    assert_ne!(a.to_path_buf(), b.to_path_buf());
    a.dispose();
    b.dispose();
}

#[test]
fn default_base_is_the_host_temp_dir() {
    let mut t = Temp::new_path();
    let path = t.to_path_buf();
    let base = tempfile::env::temp_dir().to_string_lossy().into_owned();
    let base = base.trim_end_matches('/').to_owned();
    assert!(path.starts_with(&format!("{}/", base)));
    t.dispose();
}

#[test]
fn unbound_path_lifecycle() {
    let mut t = Temp::new_path();
    let path = t.to_path_buf();
    assert!(!path_exists(&path));
    rustix::fs::open(
        path.as_str(),
        rustix::fs::OFlags::WRONLY | rustix::fs::OFlags::CREATE | rustix::fs::OFlags::EXCL,
        rustix::fs::Mode::from_raw_mode(0o600),
    )
    .unwrap();
    assert!(path_exists(&path));
    let report = t.dispose();
    assert!(matches!(report, DisposalReport::RemovedFile));
    assert!(!path_exists(&path));
}

#[test]
fn unbound_path_never_materialized_is_no_failure() {
    let mut t = Temp::new_path();
    let report = t.dispose();
    assert!(matches!(report, DisposalReport::NothingThere));
}

#[test]
fn extension_variants_agree() {
    let mut plain = Temp::new_file_with_extension("json").unwrap();
    let mut dotted = Temp::new_file_with_extension(".json").unwrap();
    let suffix_of = |p: &str| p[p.rfind('.').unwrap()..].to_owned();
    assert_eq!(suffix_of(&plain.to_path_buf()), ".json");
    assert_eq!(suffix_of(&dotted.to_path_buf()), ".json");
    plain.dispose();
    dotted.dispose();
}

#[test]
fn dir_disposal_removes_descendants() {
    let mut d = Temp::new_dir().unwrap();
    let dir_path = d.to_path_buf();
    let mut inner = Temp::new_file_in(&dir_path).unwrap();
    let inner_path = inner.release();
    assert!(path_exists(&inner_path));
    let report = d.dispose();
    assert!(matches!(report, DisposalReport::RemovedDir));
    assert!(!path_exists(&inner_path));
    assert!(!path_exists(&dir_path));
    assert!(matches!(inner.dispose(), DisposalReport::Inert));
}
