use wallgallery::apply::{
    begin_apply, command_argv, on_command_result, overlay_visible, resolved_or_original,
    wallpaper_pair, ApplyOutcome, ApplyProgress, ApplyStart, CompositorCmd,
};

#[test]
fn apply_without_a_monitor_short_circuits() {
    let start = begin_apply(&None, &String::from("/walls/a.png"));
    match start {
        ApplyStart::Refused(outcome) => assert_eq!(outcome, ApplyOutcome::NoMonitorSelected),
        ApplyStart::Pending(_) => panic!("no command may be issued without a monitor"),
    }
}

#[test]
fn a_failed_preload_never_reaches_the_set_step() {
    let start = begin_apply(&Some(String::from("DP-1")), &String::from("/walls/a.png"));
    let session = match start {
        ApplyStart::Pending(s) => s,
        ApplyStart::Refused(_) => panic!("a selected monitor starts the protocol"),
    };
    match session.command() {
        CompositorCmd::Preload(p) => assert_eq!(p, "/walls/a.png"),
        _ => panic!("the first step is the preload"),
    }
    match on_command_result(session, false) {
        ApplyProgress::Done(outcome, run_reload) => {
            assert_eq!(outcome, ApplyOutcome::PreloadFailed);
            assert!(!run_reload);
        },
        ApplyProgress::Next(_) => panic!("a failed preload aborts the protocol"),
    }
}

#[test]
fn a_failed_set_reports_set_failed_without_reload() {
    let start = begin_apply(&Some(String::from("DP-1")), &String::from("/walls/a.png"));
    let session = match start {
        ApplyStart::Pending(s) => s,
        ApplyStart::Refused(_) => panic!("a selected monitor starts the protocol"),
    };
    let set_session = match on_command_result(session, true) {
        ApplyProgress::Next(s) => s,
        ApplyProgress::Done(..) => panic!("a successful preload moves to the set step"),
    };
    match set_session.command() {
        CompositorCmd::SetWallpaper(pair) => assert_eq!(pair, "DP-1,/walls/a.png"),
        _ => panic!("the second step is the set"),
    }
    match on_command_result(set_session, false) {
        ApplyProgress::Done(outcome, run_reload) => {
            assert_eq!(outcome, ApplyOutcome::SetFailed);
            assert!(!run_reload);
        },
        ApplyProgress::Next(_) => panic!("a failed set aborts the protocol"),
    }
}

#[test]
fn a_successful_apply_requests_the_reload() {
    let start = begin_apply(&Some(String::from("HDMI-A-1")), &String::from("/w/b.jpg"));
    let session = match start {
        ApplyStart::Pending(s) => s,
        ApplyStart::Refused(_) => panic!("a selected monitor starts the protocol"),
    };
    let set_session = match on_command_result(session, true) {
        ApplyProgress::Next(s) => s,
        ApplyProgress::Done(..) => panic!("a successful preload moves to the set step"),
    };
    match on_command_result(set_session, true) {
        ApplyProgress::Done(outcome, run_reload) => {
            assert_eq!(outcome, ApplyOutcome::Success);
            assert!(run_reload);
        },
        ApplyProgress::Next(_) => panic!("a successful set finishes the protocol"),
    }
}

#[test]
fn wallpaper_pair_joins_monitor_and_path() {
    let pair = wallpaper_pair(&String::from("eDP-1"), &String::from("/walls/x.png"));
    assert_eq!(pair, "eDP-1,/walls/x.png");
}

#[test]
fn command_argv_matches_the_control_cli() {
    let preload = command_argv(&CompositorCmd::Preload(String::from("/w/a.png")));
    assert_eq!(preload, vec!["hyprpaper", "preload", "/w/a.png"]);
    let set = command_argv(&CompositorCmd::SetWallpaper(String::from("DP-1,/w/a.png")));
    assert_eq!(set, vec!["hyprpaper", "wallpaper", "DP-1,/w/a.png"]);
    let reload = command_argv(&CompositorCmd::Reload);
    assert_eq!(reload, vec!["hyprpaper", "reload"]);
}

#[test]
fn outcome_messages_match_the_overlay_texts() {
    assert_eq!(ApplyOutcome::Success.message(), "");
    assert_eq!(
        ApplyOutcome::PreloadFailed.message(),
        "Failed to preload wallpaper"
    );
    assert_eq!(ApplyOutcome::SetFailed.message(), "Failed to apply wallpaper");
    assert_eq!(
        ApplyOutcome::NoMonitorSelected.message(),
        "No monitor selected"
    );
}

#[test]
fn overlays_expire_after_two_seconds() {
    assert!(overlay_visible(1000, 1000));
    assert!(overlay_visible(1000, 2999));
    assert!(!overlay_visible(1000, 3000));
    assert!(!overlay_visible(1000, 9000));
}

#[test]
fn resolution_failure_falls_back_to_the_original_path() {
    let original = String::from("relative/b.png");
    let kept = resolved_or_original(None, &original);
    assert_eq!(kept, "relative/b.png");
    let resolved = resolved_or_original(Some(String::from("/abs/b.png")), &original);
    assert_eq!(resolved, "/abs/b.png");
}
