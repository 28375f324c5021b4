use niri_workspaces::label::{display_value, make_label, widget_name};
use niri_workspaces::model::{DisplayPolicy, IconSet, WorkspaceSnapshot};
use niri_workspaces::text::{escape_markup, replace_all, u32_to_string};

fn ws(id: u64, idx: u32, name: Option<&str>, output: Option<&str>) -> WorkspaceSnapshot {
    WorkspaceSnapshot {
        id,
        idx,
        name: name.map(|s| s.to_string()),
        output: output.map(|s| s.to_string()),
        is_focused: false,
        is_active: false,
        is_urgent: false,
        active_window_id: Some(1),
    }
}

#[test]
fn decimal_rendering_of_indices() {
    assert_eq!(u32_to_string(0), "0");
    assert_eq!(u32_to_string(7), "7");
    assert_eq!(u32_to_string(10), "10");
    assert_eq!(u32_to_string(123), "123");
    assert_eq!(u32_to_string(4294967295), "4294967295");
}

#[test]
fn markup_escaping_covers_the_five_significant_characters() {
    assert_eq!(escape_markup("a&b<c>d'e\"f"), "a&amp;b&lt;c&gt;d&#39;e&quot;f");
    assert_eq!(escape_markup(""), "");
    assert_eq!(escape_markup("plain"), "plain");
    assert_eq!(escape_markup("&&"), "&amp;&amp;");
}

#[test]
fn placeholder_replacement_is_left_to_right_and_non_overlapping() {
    assert_eq!(replace_all("a{x}b{x}", "{x}", "1"), "a1b1");
    assert_eq!(replace_all("aaa", "aa", "b"), "ba");
    assert_eq!(replace_all("nothing here", "{x}", "1"), "nothing here");
    assert_eq!(replace_all("{x}{x}", "{x}", ""), "");
}

#[test]
fn display_value_prefers_the_name_over_the_index() {
    assert_eq!(display_value(&ws(1, 4, Some("web"), None)), "web");
    assert_eq!(display_value(&ws(1, 4, None, None)), "4");
}

#[test]
fn widget_name_carries_the_display_value() {
    assert_eq!(widget_name(&"web".to_string()), "niri-workspace-web");
    assert_eq!(widget_name(&"4".to_string()), "niri-workspace-4");
}

#[test]
fn label_without_template_is_the_icon_alone() {
    let mut policy = DisplayPolicy::default();
    policy.format_icons = Some(IconSet {
        urgent: None,
        empty: None,
        focused: None,
        active: None,
        default_icon: Some("D".to_string()),
        named: Vec::new(),
    });
    let label = make_label(&ws(1, 2, Some("web"), None), 3, &policy);
    assert_eq!(label, "D");
}

#[test]
fn template_substitutes_all_placeholders_and_escapes_compositor_text() {
    let mut policy = DisplayPolicy::default();
    policy.format = Some("{icon} {value} [{name}/{index}/{output}]".to_string());
    policy.format_icons = Some(IconSet {
        urgent: None,
        empty: None,
        focused: None,
        active: None,
        default_icon: Some("<b>i</b>".to_string()),
        named: Vec::new(),
    });
    let label = make_label(&ws(1, 2, Some("a&b"), Some("DP-1")), 1, &policy);
    // The icon stays raw markup; name and value are escaped.
    assert_eq!(label, "<b>i</b> a&amp;b [a&amp;b/2/DP-1]");
}

#[test]
fn template_renders_absent_name_and_output_as_empty_text() {
    let mut policy = DisplayPolicy::default();
    policy.format = Some("{value}|{name}|{output}".to_string());
    policy.format_icons = Some(IconSet {
        urgent: None,
        empty: None,
        focused: None,
        active: None,
        default_icon: Some("i".to_string()),
        named: Vec::new(),
    });
    let label = make_label(&ws(1, 5, None, None), 0, &policy);
    assert_eq!(label, "5||");
}

#[test]
fn label_without_icon_set_uses_the_gradient_icon() {
    let policy = DisplayPolicy::default();
    let label = make_label(&ws(1, 2, None, None), 0, &policy);
    assert_eq!(label, "<span>\u{f02d9}\u{2009}</span>");
}
