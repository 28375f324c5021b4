use niri_workspaces::filter::{count_occupancy, exec_rule_matches, exec_window_ignored};
use niri_workspaces::model::{IgnoreRule, WindowInfo};

fn win(ws: Option<u64>, app_id: Option<&str>, title: Option<&str>) -> WindowInfo {
    WindowInfo {
        workspace_id: ws,
        app_id: app_id.map(|s| s.to_string()),
        title: title.map(|s| s.to_string()),
    }
}

fn rule(app_id: Option<&str>, title: Option<&str>) -> IgnoreRule {
    IgnoreRule { app_id: app_id.map(|s| s.to_string()), title: title.map(|s| s.to_string()) }
}

#[test]
fn rule_with_both_fields_absent_matches_every_window() {
    let r = rule(None, None);
    assert!(exec_rule_matches(&r, &win(Some(1), Some("firefox"), Some("Home"))));
    assert!(exec_rule_matches(&r, &win(None, None, None)));
}

#[test]
fn rule_matches_only_when_every_present_field_matches() {
    let r = rule(Some("firefox"), Some("Home"));
    assert!(exec_rule_matches(&r, &win(Some(1), Some("firefox"), Some("Home"))));
    assert!(!exec_rule_matches(&r, &win(Some(1), Some("firefox"), Some("News"))));
    assert!(!exec_rule_matches(&r, &win(Some(1), Some("chromium"), Some("Home"))));
    assert!(!exec_rule_matches(&r, &win(Some(1), None, Some("Home"))));
}

#[test]
fn absent_rule_field_is_a_wildcard() {
    let by_app = rule(Some("scratchpad"), None);
    assert!(exec_rule_matches(&by_app, &win(Some(2), Some("scratchpad"), Some("anything"))));
    assert!(exec_rule_matches(&by_app, &win(Some(2), Some("scratchpad"), None)));
    let by_title = rule(None, Some("Picture-in-Picture"));
    assert!(exec_rule_matches(&by_title, &win(None, None, Some("Picture-in-Picture"))));
    assert!(!exec_rule_matches(&by_title, &win(None, None, None)));
}

#[test]
fn window_is_ignored_when_any_rule_matches() {
    let rules = vec![rule(Some("bar"), None), rule(None, Some("Scratch"))];
    assert!(exec_window_ignored(&win(Some(1), Some("bar"), Some("x")), &rules));
    assert!(exec_window_ignored(&win(Some(1), Some("foo"), Some("Scratch")), &rules));
    assert!(!exec_window_ignored(&win(Some(1), Some("foo"), Some("x")), &rules));
}

#[test]
fn occupancy_counts_non_ignored_windows_per_workspace() {
    let rules = vec![rule(Some("scratchpad"), None)];
    let windows = vec![
        win(Some(1), Some("firefox"), Some("Home")),
        win(Some(1), Some("term"), None),
        win(Some(2), Some("scratchpad"), Some("notes")),
        win(Some(2), Some("editor"), None),
        win(None, Some("panel"), None),
    ];
    let occ = count_occupancy(&windows, &rules);
    assert_eq!(occ.get(1), 2);
    assert_eq!(occ.get(2), 1);
    assert_eq!(occ.get(3), 0);
}

#[test]
fn occupancy_with_no_rules_counts_everything_with_a_workspace() {
    let windows = vec![win(Some(7), None, None), win(Some(7), None, None), win(None, None, None)];
    let occ = count_occupancy(&windows, &vec![]);
    assert_eq!(occ.get(7), 2);
}

#[test]
fn match_all_rule_empties_every_workspace() {
    let windows = vec![win(Some(1), Some("a"), None), win(Some(2), Some("b"), None)];
    let occ = count_occupancy(&windows, &vec![rule(None, None)]);
    assert_eq!(occ.get(1), 0);
    assert_eq!(occ.get(2), 0);
}
