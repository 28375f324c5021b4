//! The Reconciler: decides between a full rebuild and an in-place update,
//! and computes the state every widget must carry.

use vstd::prelude::*;
use crate::model::{WorkspaceSnapshot, WindowInfo, DisplayPolicy, ids_of, clone_opt_string};
use crate::filter::{Occupancy, count_occupancy, spec_occupancy};
use crate::view::{spec_build, spec_reference_output, build};
use crate::label::{spec_label, spec_display_value, make_label, display_value, widget_name};

verus! {

/// Everything a widget shows: its label, its CSS name, its state flags and
/// its visibility. The toolkit layer applies these verbatim.
pub struct WidgetState {
    pub label: String,
    pub widget_name: String,
    pub focused: bool,
    pub active: bool,
    pub urgent: bool,
    pub empty: bool,
    pub current_output: Option<bool>,
    pub visible: bool,
}

/// Whether the widget is shown: under the current-only policy only the
/// focused (all outputs) or active (single output) workspace is, otherwise
/// every reconciled widget is.
pub open spec fn spec_visible(ws: WorkspaceSnapshot, policy: DisplayPolicy) -> bool {
    if policy.current_only {
        if policy.all_outputs {
            ws.is_focused
        } else {
            ws.is_active
        }
    } else {
        true
    }
}

/// The `current_output` flag: only meaningful when a reference output is
/// known, and then true exactly when the workspace sits on it.
pub open spec fn spec_current_output(ws: WorkspaceSnapshot, reference: Option<String>) -> Option<
    bool,
> {
    match reference {
        Option::None => Option::None,
        Option::Some(r) => Option::Some(
            match ws.output {
                Option::Some(o) => o@ == r@,
                Option::None => false,
            },
        ),
    }
}

/// What the widget for `ws` must show.
pub open spec fn widget_state_is(
    st: WidgetState,
    ws: WorkspaceSnapshot,
    window_count: int,
    policy: DisplayPolicy,
    reference: Option<String>,
) -> bool {
    &&& st.label@ == spec_label(ws, window_count, policy)
    &&& st.widget_name@ == "niri-workspace-"@ + spec_display_value(ws)
    &&& st.focused == ws.is_focused
    &&& st.active == ws.is_active
    &&& st.urgent == ws.is_urgent
    &&& st.empty == (ws.active_window_id is None)
    &&& st.current_output == spec_current_output(ws, reference)
    &&& st.visible == spec_visible(ws, policy)
}

/// Computes the full state of one widget from its workspace.
pub fn widget_state(
    ws: &WorkspaceSnapshot,
    window_count: usize,
    policy: &DisplayPolicy,
    reference: &Option<String>,
) -> (st: WidgetState)
    ensures
        widget_state_is(st, *ws, window_count as int, *policy, *reference),
{
    let label = make_label(ws, window_count, policy);
    let value = display_value(ws);
    let name = widget_name(&value);
    let current_output: Option<bool> = match reference {
        Option::None => Option::None,
        Option::Some(r) => Option::Some(
            match &ws.output {
                Option::Some(o) => o.eq(r),
                Option::None => false,
            },
        ),
    };
    let visible = if policy.current_only {
        if policy.all_outputs {
            ws.is_focused
        } else {
            ws.is_active
        }
    } else {
        true
    };
    WidgetState {
        label,
        widget_name: name,
        focused: ws.is_focused,
        active: ws.is_active,
        urgent: ws.is_urgent,
        empty: ws.active_window_id.is_none(),
        current_output,
        visible,
    }
}

/// A full rebuild is due exactly when the widgets' id sequence is not the
/// view's id sequence: a count change or any positional mismatch. Same
/// length and same ids in the same order mean an in-place update suffices.
pub fn needs_rebuild(widget_ids: &Vec<u64>, view: &Vec<WorkspaceSnapshot>) -> (r: bool)
    ensures
        r == (widget_ids@ != ids_of(view@)),
{
    if widget_ids.len() != view.len() {
        return true;
    }
    let mut i: usize = 0;
    while i < view.len()
        invariant
            i <= view.len(),
            widget_ids@.len() == view@.len(),
            forall|j: int| 0 <= j < i ==> widget_ids@[j] == ids_of(view@)[j],
        decreases view.len() - i,
    {
        if widget_ids[i] != view[i].id {
            return true;
        }
        i = i + 1;
    }
    proof {
        assert(widget_ids@ =~= ids_of(view@));
    }
    false
}

/// Everything one reconciliation pass decides: the occupancy counts, the
/// ordered view, whether the widget list must be rebuilt, and the state of
/// every widget, positionally paired with the view.
pub struct RefreshPlan {
    pub occupancy: Occupancy,
    pub view: Vec<WorkspaceSnapshot>,
    pub rebuild: bool,
    pub states: Vec<WidgetState>,
}

/// One reconciliation pass over fresh compositor state: counts non-ignored
/// windows, derives the ordered view, decides rebuild against the current
/// widget ids, and computes every widget's state. Applying the states is
/// idempotent, so the caller may run this on every refresh.
pub fn plan_refresh(
    snapshots: &Vec<WorkspaceSnapshot>,
    windows: &Vec<WindowInfo>,
    widget_ids: &Vec<u64>,
    policy: &DisplayPolicy,
) -> (plan: RefreshPlan)
    ensures
        forall|id: u64| #[trigger] plan.occupancy.count(id) == spec_occupancy(
            windows@,
            policy.ignore_rules@,
            id,
        ),
        plan.view@ == spec_build(snapshots@, plan.occupancy, *policy),
        plan.rebuild == (widget_ids@ != ids_of(plan.view@)),
        plan.states@.len() == plan.view@.len(),
        forall|i: int|
            0 <= i < plan.view@.len() ==> widget_state_is(
                #[trigger] plan.states@[i],
                plan.view@[i],
                plan.occupancy.count(plan.view@[i].id) as int,
                *policy,
                spec_reference_output(snapshots@, policy.all_outputs),
            ),
{
    let occupancy = count_occupancy(windows, &policy.ignore_rules);
    let view = build(snapshots, &occupancy, policy);
    let rebuild = needs_rebuild(widget_ids, &view);
    let reference: Option<String> = if policy.all_outputs || snapshots.len() == 0 {
        Option::None
    } else {
        clone_opt_string(&snapshots[0].output)
    };
    proof {
        assert(reference == spec_reference_output(snapshots@, policy.all_outputs));
    }
    let mut states: Vec<WidgetState> = Vec::new();
    let mut i: usize = 0;
    while i < view.len()
        invariant
            i <= view.len(),
            states@.len() == i,
            reference == spec_reference_output(snapshots@, policy.all_outputs),
            forall|j: int|
                0 <= j < i ==> widget_state_is(
                    #[trigger] states@[j],
                    view@[j],
                    occupancy.count(view@[j].id) as int,
                    *policy,
                    reference,
                ),
        decreases view.len() - i,
    {
        let ws = &view[i];
        let cnt = occupancy.get(ws.id);
        let st = widget_state(ws, cnt, policy, &reference);
        states.push(st);
        i = i + 1;
    }
    RefreshPlan { occupancy, view, rebuild, states }
}

} // verus!
