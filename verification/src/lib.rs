//! Scoped temporary filesystem paths.
//!
//! A [`Temp`] handle owns one freshly named path under a base directory.
//! Constructors create the backing file or directory with owner-only
//! permissions (or, for an unbound path, create nothing). Disposing the
//! handle — done once, when the owning scope ends — removes the backing
//! object again, under a configurable failure policy, unless ownership
//! was released first.

use vstd::prelude::*;

mod fs_ops;
mod handle;
mod path_gen;

verus! {

pub use fs_ops::FsError;
pub use fs_ops::PathStatus;
pub use handle::DisposalAction;
pub use handle::DisposalPolicy;
pub use handle::DisposalReport;
pub use handle::FailureVerdict;
pub use handle::Kind;
pub use handle::Temp;
pub use handle::TempModel;
pub use handle::decide_disposal_action;
pub use handle::decide_failure_verdict;
pub use handle::disposal_action;
pub use handle::failure_report;
pub use handle::failure_verdict;
pub use handle::fresh_handle;
pub use handle::path_generated;
pub use handle::path_generated_in;
pub use handle::released_model;
pub use handle::lemma_unreleased_disposal_removes;
pub use handle::lemma_released_disposal_inert;
pub use handle::lemma_disposed_disposal_inert;
pub use handle::lemma_release_idempotent;
pub use handle::lemma_panic_never_not_fatal;
pub use handle::lemma_default_policy_fatal;
pub use handle::lemma_unwind_never_fatal;

pub use path_gen::is_lower_hex;
pub use path_gen::is_token;
pub use path_gen::norm_ext;
pub use path_gen::file_name_for;
pub use path_gen::joined;
pub use path_gen::generated_path;
pub use path_gen::lemma_extension_dot_equivalent;
pub use path_gen::lemma_generated_path_extension;

} // verus!
