use krenz::{color_eyre_install, install_with, Markers, ENABLED};

fn absent() -> Markers {
    Markers { install: None, backtrace: None }
}

#[test]
fn first_install_sets_both_markers() {
    let mut calls = 0;
    let mut markers = absent();
    let r = install_with(&mut markers, || {
        calls += 1;
        Ok(())
    });
    assert!(r.is_ok());
    assert_eq!(calls, 1);
    assert_eq!(markers.install.as_deref(), Some(ENABLED));
    assert_eq!(markers.backtrace.as_deref(), Some("1"));
}

#[test]
fn second_install_runs_no_hook_installation() {
    let mut calls = 0;
    let mut markers = absent();
    assert!(install_with(&mut markers, || {
        calls += 1;
        Ok(())
    })
    .is_ok());
    assert!(install_with(&mut markers, || {
        calls += 1;
        Ok(())
    })
    .is_ok());
    assert_eq!(calls, 1);
    assert_eq!(markers.install.as_deref(), Some("1"));
    assert_eq!(markers.backtrace.as_deref(), Some("1"));
}

#[test]
fn preset_backtrace_is_kept() {
    let mut markers = Markers { install: None, backtrace: Some(String::from("full")) };
    assert!(install_with(&mut markers, || Ok(())).is_ok());
    assert_eq!(markers.backtrace.as_deref(), Some("full"));
    let mut markers = Markers { install: None, backtrace: Some(String::from("0")) };
    assert!(install_with(&mut markers, || Ok(())).is_ok());
    assert_eq!(markers.backtrace.as_deref(), Some("0"));
}

#[test]
fn absent_backtrace_is_enabled() {
    let mut markers = Markers { install: Some(String::from("1")), backtrace: None };
    assert!(install_with(&mut markers, || Ok(())).is_ok());
    assert_eq!(markers.backtrace.as_deref(), Some("1"));
}

#[test]
fn preset_install_marker_skips_installation() {
    let mut calls = 0;
    let mut markers = Markers { install: Some(String::from("yes")), backtrace: None };
    let r = install_with(&mut markers, || {
        calls += 1;
        Err(color_eyre::Report::msg("must not be called"))
    });
    assert!(r.is_ok());
    assert_eq!(calls, 0);
    assert_eq!(markers.install.as_deref(), Some("yes"));
    assert_eq!(markers.backtrace.as_deref(), Some("1"));
}

#[test]
fn failed_hook_installation_is_reported() {
    let mut markers = absent();
    let r = install_with(&mut markers, || Err(color_eyre::Report::msg("hook already set")));
    let err = match r {
        Ok(()) => panic!("the failure was not reported"),
        Err(e) => e,
    };
    assert_eq!(err.into_report().to_string(), "hook already set");
    assert_eq!(markers.install.as_deref(), Some("1"));
    assert_eq!(markers.backtrace, None);
}

#[test]
fn color_eyre_install_installs_once() {
    let mut markers = absent();
    assert!(color_eyre_install(&mut markers).is_ok());
    assert_eq!(markers.install.as_deref(), Some("1"));
    assert_eq!(markers.backtrace.as_deref(), Some("1"));
    assert!(color_eyre_install(&mut markers).is_ok());
    let mut fresh = absent();
    assert!(color_eyre_install(&mut fresh).is_err());
    assert_eq!(fresh.install.as_deref(), Some("1"));
    assert_eq!(fresh.backtrace, None);
}

#[test]
fn failed_installation_is_not_retried() {
    let mut calls = 0;
    let mut markers = absent();
    assert!(install_with(&mut markers, || {
        calls += 1;
        Err(color_eyre::Report::msg("hook already set"))
    })
    .is_err());
    assert!(install_with(&mut markers, || {
        calls += 1;
        Ok(())
    })
    .is_ok());
    assert_eq!(calls, 1);
    assert_eq!(markers.install.as_deref(), Some("1"));
    assert_eq!(markers.backtrace.as_deref(), Some("1"));
}
