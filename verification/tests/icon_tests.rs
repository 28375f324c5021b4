use niri_workspaces::icon::{get_format_icon, get_pie_icon};
use niri_workspaces::model::{IconSet, WorkspaceSnapshot};

fn bare_icons() -> IconSet {
    IconSet {
        urgent: None,
        empty: None,
        focused: None,
        active: None,
        default_icon: None,
        named: Vec::new(),
    }
}

fn busy_ws() -> WorkspaceSnapshot {
    // A workspace matching several icon categories at once: urgent, empty,
    // focused, active, named, and with a numeric index.
    WorkspaceSnapshot {
        id: 9,
        idx: 3,
        name: Some("mail".to_string()),
        output: None,
        is_focused: true,
        is_active: true,
        is_urgent: true,
        active_window_id: None,
    }
}

#[test]
fn icon_priority_is_urgent_empty_focused_active_named_indexed_default_value() {
    let mut icons = bare_icons();
    icons.urgent = Some("U".to_string());
    icons.empty = Some("E".to_string());
    icons.focused = Some("F".to_string());
    icons.active = Some("A".to_string());
    icons.named = vec![("mail".to_string(), "M".to_string()), ("3".to_string(), "I".to_string())];
    icons.default_icon = Some("D".to_string());
    let ws = busy_ws();
    let value = "mail".to_string();

    assert_eq!(get_format_icon(&ws, Some(&icons), &value), "U");
    icons.urgent = None;
    assert_eq!(get_format_icon(&ws, Some(&icons), &value), "E");
    icons.empty = None;
    assert_eq!(get_format_icon(&ws, Some(&icons), &value), "F");
    icons.focused = None;
    assert_eq!(get_format_icon(&ws, Some(&icons), &value), "A");
    icons.active = None;
    assert_eq!(get_format_icon(&ws, Some(&icons), &value), "M");
    icons.named.remove(0);
    assert_eq!(get_format_icon(&ws, Some(&icons), &value), "I");
    icons.named.clear();
    assert_eq!(get_format_icon(&ws, Some(&icons), &value), "D");
    icons.default_icon = None;
    assert_eq!(get_format_icon(&ws, Some(&icons), &value), "mail");
}

#[test]
fn unnamed_workspace_can_still_hit_an_index_icon() {
    let mut icons = bare_icons();
    icons.named = vec![("3".to_string(), "third".to_string())];
    let mut ws = busy_ws();
    ws.name = None;
    ws.is_urgent = false;
    ws.is_focused = false;
    ws.is_active = false;
    ws.active_window_id = Some(77);
    assert_eq!(get_format_icon(&ws, Some(&icons), &"3".to_string()), "third");
}

#[test]
fn without_an_icon_set_the_value_stands_in() {
    let ws = busy_ws();
    assert_eq!(get_format_icon(&ws, None, &"mail".to_string()), "mail");
}

#[test]
fn pie_icon_for_count_zero_is_the_empty_hexagon() {
    assert_eq!(get_pie_icon(0, None), "<span>\u{f02d9}\u{2009}</span>");
}

#[test]
fn pie_icon_neutral_buckets_use_fill_glyphs() {
    assert_eq!(get_pie_icon(1, None), "<span>\u{f0ac3}\u{2009}</span>");
    assert_eq!(get_pie_icon(6, None), "<span>\u{f0ac8}\u{2009}</span>");
}

#[test]
fn pie_icon_colored_buckets_use_the_fixed_ascending_ramp() {
    let expected = [
        "#bf616a", "#d08770", "#ebcb8b", "#a3be8c", "#81a1c1", "#b48ead", "#8b7355", "#808080",
    ];
    for (i, color) in expected.iter().enumerate() {
        let icon = get_pie_icon(7 + i, None);
        assert_eq!(icon, format!("<span foreground='{}'>\u{f0ac8}\u{2009}</span>", color));
    }
}

#[test]
fn pie_icon_colors_are_pairwise_distinct() {
    let mut seen: Vec<String> = Vec::new();
    for count in 7..=14 {
        let icon = get_pie_icon(count, None);
        assert!(!seen.contains(&icon));
        seen.push(icon);
    }
}

#[test]
fn pie_icon_caps_at_the_final_color() {
    let at_cap = get_pie_icon(15, None);
    assert_eq!(at_cap, "<span foreground='#000000'>\u{f0ac8}\u{2009}</span>");
    assert_eq!(get_pie_icon(16, None), at_cap);
    assert_eq!(get_pie_icon(1000, None), at_cap);
}

#[test]
fn pie_icon_carries_the_size_hint() {
    assert_eq!(get_pie_icon(0, Some("12pt")), "<span size='12pt'>\u{f02d9}\u{2009}</span>");
    assert_eq!(
        get_pie_icon(8, Some("large")),
        "<span foreground='#d08770' size='large'>\u{f0ac8}\u{2009}</span>"
    );
}
