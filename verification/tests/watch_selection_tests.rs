use wallgallery::selection::{choose_initial_monitor, Selection};
use wallgallery::watch::{needs_rescan, FsEventKind};

#[test]
fn no_events_mean_no_rescan() {
    let drained: Vec<FsEventKind> = Vec::new();
    assert!(!needs_rescan(&drained));
}

#[test]
fn ignored_event_kinds_never_trigger_a_rescan() {
    let drained = vec![FsEventKind::Other, FsEventKind::Other];
    assert!(!needs_rescan(&drained));
}

#[test]
fn any_relevant_event_coalesces_into_one_rescan() {
    assert!(needs_rescan(&vec![FsEventKind::Created]));
    assert!(needs_rescan(&vec![FsEventKind::Modified]));
    assert!(needs_rescan(&vec![FsEventKind::Removed]));
    assert!(needs_rescan(&vec![
        FsEventKind::Other,
        FsEventKind::Removed,
        FsEventKind::Created,
    ]));
}

#[test]
fn selection_starts_empty_and_is_replaced_on_click() {
    let mut sel = Selection::new();
    assert!(sel.selected.is_none());
    assert!(!sel.is_selected(&String::from("/w/a.png")));

    sel.select(String::from("/w/a.png"));
    assert!(sel.is_selected(&String::from("/w/a.png")));
    assert!(!sel.is_selected(&String::from("/w/b.png")));

    sel.select(String::from("/w/b.png"));
    assert!(sel.is_selected(&String::from("/w/b.png")));
    assert!(!sel.is_selected(&String::from("/w/a.png")));
}

#[test]
fn the_first_monitor_is_selected_initially() {
    let none: Vec<String> = Vec::new();
    assert_eq!(choose_initial_monitor(&none), None);
    let monitors = vec![String::from("DP-1"), String::from("HDMI-A-1")];
    assert_eq!(choose_initial_monitor(&monitors), Some(String::from("DP-1")));
}
