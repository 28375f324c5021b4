//! Label assembly: the display value, the format template with its five
//! placeholders, and markup safety for compositor-supplied text.

use vstd::prelude::*;
use vstd::string::StringExecFns;
use crate::model::{WorkspaceSnapshot, DisplayPolicy, opt_view};
use crate::text::{dec_str, escape_text, replace_text, escape_markup, replace_all, u32_to_string};
use crate::icon::{spec_pie_icon, spec_resolve_icon, get_pie_icon, get_format_icon};

verus! {

/// The display value of a workspace: its name, or failing that its decimal
/// index.
pub open spec fn spec_display_value(ws: WorkspaceSnapshot) -> Seq<char> {
    match ws.name {
        Option::Some(n) => n@,
        Option::None => dec_str(ws.idx as nat),
    }
}

pub fn display_value(ws: &WorkspaceSnapshot) -> (r: String)
    ensures
        r@ == spec_display_value(*ws),
{
    match &ws.name {
        Option::Some(n) => n.clone(),
        Option::None => u32_to_string(ws.idx),
    }
}

/// The text of an optional field as the template renders it: absent means
/// empty.
pub open spec fn opt_text(o: Option<String>) -> Seq<char> {
    match o {
        Option::Some(s) => s@,
        Option::None => Seq::empty(),
    }
}

/// The icon of a workspace: resolved from the configured icon set when one
/// is configured, the occupancy gradient otherwise.
pub open spec fn spec_icon(
    ws: WorkspaceSnapshot,
    window_count: int,
    policy: DisplayPolicy,
) -> Seq<char> {
    match policy.format_icons {
        Option::Some(icons) => spec_resolve_icon(ws, icons, spec_display_value(ws)),
        Option::None => spec_pie_icon(window_count, opt_view(policy.icon_size)),
    }
}

/// The label of a workspace widget. With a template, the five placeholders
/// are substituted one after the other; every value but the icon is escaped,
/// since names and outputs originate from the compositor, while the icon is
/// presentation markup. Without a template the icon alone is the label.
pub open spec fn spec_label(
    ws: WorkspaceSnapshot,
    window_count: int,
    policy: DisplayPolicy,
) -> Seq<char> {
    let icon = spec_icon(ws, window_count, policy);
    match policy.format {
        Option::None => icon,
        Option::Some(f) => replace_text(
            replace_text(
                replace_text(
                    replace_text(
                        replace_text(f@, "{icon}"@, icon),
                        "{value}"@,
                        escape_text(spec_display_value(ws)),
                    ),
                    "{name}"@,
                    escape_text(opt_text(ws.name)),
                ),
                "{index}"@,
                escape_text(dec_str(ws.idx as nat)),
            ),
            "{output}"@,
            escape_text(opt_text(ws.output)),
        ),
    }
}

pub fn make_label(ws: &WorkspaceSnapshot, window_count: usize, policy: &DisplayPolicy) -> (r:
    String)
    ensures
        r@ == spec_label(*ws, window_count as int, *policy),
{
    let value = display_value(ws);
    let icon: String = match &policy.format_icons {
        Option::Some(icons) => get_format_icon(ws, Option::Some(icons), &value),
        Option::None => {
            let size: Option<&str> = match &policy.icon_size {
                Option::Some(s) => Option::Some(s.as_str()),
                Option::None => Option::None,
            };
            proof {
                assert(opt_view(size) == opt_view(policy.icon_size));
            }
            get_pie_icon(window_count, size)
        },
    };
    match &policy.format {
        Option::None => icon,
        Option::Some(f) => {
            proof {
                reveal_strlit("{icon}");
                reveal_strlit("{value}");
                reveal_strlit("{name}");
                reveal_strlit("{index}");
                reveal_strlit("{output}");
                reveal_strlit("");
                assert(""@ =~= Seq::<char>::empty());
            }
            let escaped_value = escape_markup(value.as_str());
            let name_text: &str = match &ws.name {
                Option::Some(n) => n.as_str(),
                Option::None => "",
            };
            let escaped_name = escape_markup(name_text);
            let idx_string = u32_to_string(ws.idx);
            let escaped_index = escape_markup(idx_string.as_str());
            let output_text: &str = match &ws.output {
                Option::Some(o) => o.as_str(),
                Option::None => "",
            };
            let escaped_output = escape_markup(output_text);
            let t1 = replace_all(f.as_str(), "{icon}", icon.as_str());
            let t2 = replace_all(t1.as_str(), "{value}", escaped_value.as_str());
            let t3 = replace_all(t2.as_str(), "{name}", escaped_name.as_str());
            let t4 = replace_all(t3.as_str(), "{index}", escaped_index.as_str());
            let t5 = replace_all(t4.as_str(), "{output}", escaped_output.as_str());
            t5
        },
    }
}

/// The widget's CSS name: a fixed prefix plus the display value.
pub fn widget_name(value: &String) -> (r: String)
    ensures
        r@ == "niri-workspace-"@ + value@,
{
    let mut r = String::from_str("niri-workspace-");
    r.append(value.as_str());
    r
}

} // verus!
