//! The calls into `color_eyre` that install the process-wide hooks.

use vstd::prelude::*;

verus! {

/// The error report of `color_eyre` (eyre's `Report`), carried through opaque.
#[verifier::external_type_specification]
#[verifier::external_body]
pub struct ExReport(color_eyre::Report);

/// Relies on `color_eyre::install`: installs the global panic hook and the eyre
/// report hook with the default settings. It fails when a hook was already set
/// elsewhere in the process, so nothing is promised of its result. Like
/// `std::panic::set_hook`, which it calls, it panics when called from a thread
/// that is already panicking; no precondition can rule that thread state out.
#[verifier::external_body]
pub(crate) fn install_hooks() -> (r: Result<(), color_eyre::Report>) {
    color_eyre::install()
}

} // verus!
