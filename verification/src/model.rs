//! The plain-value data model: workspaces, windows, user policy.

use vstd::prelude::*;

verus! {

/// A workspace as the compositor reports it, reduced to the plain values the
/// bar logic reads. `id` is the durable identity; `idx` is the 1-based
/// position on the workspace's output and may change between snapshots.
pub struct WorkspaceSnapshot {
    pub id: u64,
    pub idx: u32,
    pub name: Option<String>,
    pub output: Option<String>,
    pub is_focused: bool,
    pub is_active: bool,
    pub is_urgent: bool,
    pub active_window_id: Option<u64>,
}

/// The fields of a window that the ignore filter and the occupancy count
/// read.
pub struct WindowInfo {
    pub workspace_id: Option<u64>,
    pub app_id: Option<String>,
    pub title: Option<String>,
}

/// One configured ignore predicate. An absent field is a wildcard; a window
/// matches the rule when every present field equals the window's field.
pub struct IgnoreRule {
    pub app_id: Option<String>,
    pub title: Option<String>,
}

/// The configured icon set: one optional icon per state slot, plus an open
/// mapping from workspace name (or decimal index) to icon.
pub struct IconSet {
    pub urgent: Option<String>,
    pub empty: Option<String>,
    pub focused: Option<String>,
    pub active: Option<String>,
    pub default_icon: Option<String>,
    pub named: Vec<(String, String)>,
}

/// User policy for what to display and how.
pub struct DisplayPolicy {
    pub ignore_rules: Vec<IgnoreRule>,
    pub show_empty_workspace: bool,
    pub icon_size: Option<String>,
    pub all_outputs: bool,
    pub format: Option<String>,
    pub format_icons: Option<IconSet>,
    pub disable_click: bool,
    pub current_only: bool,
}

impl Default for DisplayPolicy {
    /// The policy that an empty configuration yields: show the next empty
    /// workspace, scope to the bar's own output, everything else off.
    fn default() -> (p: DisplayPolicy)
        ensures
            p.ignore_rules@ == Seq::<IgnoreRule>::empty(),
            p.show_empty_workspace,
            p.icon_size is None,
            !p.all_outputs,
            p.format is None,
            p.format_icons is None,
            !p.disable_click,
            !p.current_only,
    {
        DisplayPolicy {
            ignore_rules: Vec::new(),
            show_empty_workspace: true,
            icon_size: None,
            all_outputs: false,
            format: None,
            format_icons: None,
            disable_click: false,
            current_only: false,
        }
    }
}

/// The view of an optional text: the character sequence it holds, if any.
pub open spec fn opt_view<T: View<V = Seq<char>>>(o: Option<T>) -> Option<Seq<char>> {
    match o {
        Option::None => Option::None,
        Option::Some(s) => Option::Some(s@),
    }
}

/// Whether two optional strings hold the same text (or are both absent).
pub open spec fn opt_str_matches(a: Option<String>, b: Option<String>) -> bool {
    match (a, b) {
        (Option::None, Option::None) => true,
        (Option::Some(x), Option::Some(y)) => x@ == y@,
        _ => false,
    }
}

pub fn opt_str_eq(a: &Option<String>, b: &Option<String>) -> (r: bool)
    ensures
        r == opt_str_matches(*a, *b),
{
    match (a, b) {
        (Option::None, Option::None) => true,
        (Option::Some(x), Option::Some(y)) => *x == *y,
        _ => false,
    }
}

pub fn clone_opt_string(o: &Option<String>) -> (r: Option<String>)
    ensures
        r == *o,
{
    match o {
        Option::None => Option::None,
        Option::Some(s) => Option::Some(s.clone()),
    }
}

impl Clone for WorkspaceSnapshot {
    fn clone(&self) -> (r: Self)
        ensures
            r == *self,
    {
        WorkspaceSnapshot {
            id: self.id,
            idx: self.idx,
            name: clone_opt_string(&self.name),
            output: clone_opt_string(&self.output),
            is_focused: self.is_focused,
            is_active: self.is_active,
            is_urgent: self.is_urgent,
            active_window_id: self.active_window_id,
        }
    }
}

/// The workspace ids of a view, in view order.
pub open spec fn ids_of(s: Seq<WorkspaceSnapshot>) -> Seq<u64> {
    Seq::new(s.len(), |i: int| s[i].id)
}

} // verus!
