//! Diagnostics helpers: a once-per-process installer for the panic and
//! error-report hooks of `color_eyre`, and the text of the location-tagged
//! debug lines that the `dump` and `dmp` printers write.

mod hooks;
pub mod install;
pub mod trace;

pub use install::{
    color_eyre_install, install_with, lemma_backtrace_override_kept, lemma_second_install_is_noop,
    InstallError, Markers, MarkersView, BACKTRACE_MARKER, ENABLED, INSTALL_MARKER,
};
pub use trace::{dmp_line, dump_line, dump_message_line, push_decimal};
