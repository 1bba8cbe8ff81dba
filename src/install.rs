//! The once-per-process installer, over a model of the two environment
//! markers that it reads and sets.

use vstd::prelude::*;

use crate::hooks::install_hooks;

verus! {

/// The environment variable whose presence says that the hooks were installed.
pub const INSTALL_MARKER: &'static str = "RUST_COLOR_EYRE_INSTALL";

/// The environment variable that turns on backtraces.
pub const BACKTRACE_MARKER: &'static str = "RUST_BACKTRACE";

/// The value that the installer gives a marker it sets.
pub const ENABLED: &'static str = "1";

/// The value that the installer gives a marker it sets, as characters.
pub open spec fn enabled() -> Seq<char> {
    seq!['1']
}

/// The two environment markers: `None` where the variable is unset (or does
/// not hold valid Unicode), else its value.
pub struct Markers {
    pub install: Option<String>,
    pub backtrace: Option<String>,
}

/// The markers as character sequences.
pub struct MarkersView {
    pub install: Option<Seq<char>>,
    pub backtrace: Option<Seq<char>>,
}

/// The characters of an optional string.
pub open spec fn text_of(o: Option<String>) -> Option<Seq<char>> {
    match o {
        Some(s) => Some(s@),
        None => None,
    }
}

impl View for Markers {
    type V = MarkersView;

    open spec fn view(&self) -> MarkersView {
        MarkersView { install: text_of(self.install), backtrace: text_of(self.backtrace) }
    }
}

/// The installation failed: the report of the hook installation.
pub struct InstallError {
    pub report: color_eyre::Report,
}

impl InstallError {
    /// The report that the hook installation gave.
    pub fn into_report(self) -> (r: color_eyre::Report)
        ensures
            r == self.report,
    {
        self.report
    }
}

/// Whether an installer that finds these markers installs the hooks: only
/// when the installation marker is absent.
pub open spec fn runs_hook_install(m: MarkersView) -> bool {
    m.install is None
}

/// The markers once the installation marker is claimed: set to the enabled
/// value where it was absent, kept where it was present.
pub open spec fn claimed(m: MarkersView) -> MarkersView {
    MarkersView {
        install: if m.install is None {
            Some(enabled())
        } else {
            m.install
        },
        backtrace: m.backtrace,
    }
}

/// The markers once both are resolved: each absent one set to the enabled
/// value, each present one kept as it was.
pub open spec fn settled(m: MarkersView) -> MarkersView {
    MarkersView {
        install: claimed(m).install,
        backtrace: if m.backtrace is None {
            Some(enabled())
        } else {
            m.backtrace
        },
    }
}

/// The enabled value as a string.
fn enabled_string() -> (r: String)
    ensures
        r@ == enabled(),
{
    proof {
        reveal_strlit("1");
    }
    let r = String::from_str(ENABLED);
    assert(r@ =~= enabled());
    r
}

/// Installs the hooks through `install` unless the installation marker
/// says that this was done already, then turns on backtraces unless the
/// backtrace marker is set.
///
/// Where the installation marker is present, `install` is not called (it need
/// not even be callable) and the call succeeds. Where it is absent, the marker is set first and
/// `install` is called once; if it fails, its report is returned in
/// `InstallError` and the backtrace marker is left as it was. A backtrace
/// marker that is present is never changed.
pub fn install_with<F>(markers: &mut Markers, install: F) -> (r: Result<(), InstallError>) where
    F: FnOnce() -> Result<(), color_eyre::Report>,

    requires
        runs_hook_install(old(markers)@) ==> call_requires(install, ()),
    ensures
        !runs_hook_install(old(markers)@) ==> r is Ok,
        runs_hook_install(old(markers)@) ==> match r {
            Ok(_) => exists|o: Result<(), color_eyre::Report>|
                o is Ok && #[trigger] call_ensures(install, (), o),
            Err(e) => call_ensures(install, (), Err(e.report)),
        },
        r is Ok ==> final(markers)@ == settled(old(markers)@),
        r is Err ==> final(markers)@ == claimed(old(markers)@),
{
    if markers.install.is_none() {
        markers.install = Some(enabled_string());
        let outcome = install();
        if let Err(report) = outcome {
            return Err(InstallError { report });
        }
    }
    if markers.backtrace.is_none() {
        markers.backtrace = Some(enabled_string());
    }
    Ok(())
}

/// Installs the panic and error-report hooks of `color_eyre` once per
/// process, as `install_with` does with `color_eyre::install`, and turns on
/// backtraces unless they were configured already.
///
/// Succeeds without installing anything where the installation marker is
/// present. Fails only where the hook installation fails, and then leaves the
/// backtrace marker as it was.
pub fn color_eyre_install(markers: &mut Markers) -> (r: Result<(), InstallError>)
    ensures
        !runs_hook_install(old(markers)@) ==> r is Ok,
        r is Ok ==> final(markers)@ == settled(old(markers)@),
        r is Err ==> runs_hook_install(old(markers)@) && final(markers)@ == claimed(old(markers)@),
        final(markers)@.install is Some,
        old(markers)@.backtrace is Some ==> final(markers)@.backtrace == old(markers)@.backtrace,
        r is Ok && old(markers)@.backtrace is None ==> final(markers)@.backtrace == Some(
            enabled(),
        ),
{
    install_with(markers, install_hooks)
}

/// Installing twice in a row: once a first call has succeeded, a second call
/// finds the installation marker set, so it does not call the installer,
/// succeeds, and leaves both markers as the first call left them. After a
/// failed first call the marker is set too, so a second call does not retry
/// the installation either.
pub proof fn lemma_second_install_is_noop(m: MarkersView)
    ensures
        !runs_hook_install(settled(m)),
        settled(settled(m)) == settled(m),
        !runs_hook_install(claimed(m)),
{
}

/// A backtrace marker that the caller set is kept, whether the installation
/// succeeds or fails; an absent one is enabled by a successful installation.
pub proof fn lemma_backtrace_override_kept(m: MarkersView)
    ensures
        m.backtrace is Some ==> settled(m).backtrace == m.backtrace && claimed(m).backtrace
            == m.backtrace,
        m.backtrace is None ==> settled(m).backtrace == Some(enabled()),
{
}

} // verus!
