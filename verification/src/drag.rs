//! The drag-reorder controller: the drag lifecycle over plain positions,
//! the optimistic visual reorder, and the move plan that ends a drag.

use vstd::prelude::*;
use crate::model::WorkspaceSnapshot;

verus! {

/// The transient state of one drag gesture: which workspace is dragged and
/// where it started within the displayed sequence. Created on gesture
/// start, destroyed on gesture end.
pub struct DragSession {
    pub dragged_id: u64,
    pub start_position: usize,
}

/// Starts a drag: records the dragged workspace and its current position.
/// The caller applies the transient dragging style to the widget.
pub fn begin_drag(dragged_id: u64, start_position: usize) -> (s: DragSession)
    ensures
        s.dragged_id == dragged_id,
        s.start_position == start_position,
{
    DragSession { dragged_id, start_position }
}

/// A widget order with the entry at `from` moved to stand at position `to`.
pub open spec fn spec_reorder(s: Seq<u64>, from: int, to: int) -> Seq<u64> {
    s.remove(from).insert(to, s[from])
}

/// The visual reorder during drag motion: when the pointer crosses a widget
/// other than the dragged one, the dragged widget takes that widget's slot.
/// Purely a display affordance — no backend command — and harmless to run
/// on every motion event.
pub fn drag_motion_reorder(order: &mut Vec<u64>, source_pos: usize, target_pos: usize)
    requires
        source_pos < old(order).len(),
        target_pos < old(order).len(),
    ensures
        final(order)@.len() == old(order)@.len(),
        source_pos == target_pos ==> final(order)@ == old(order)@,
        source_pos != target_pos ==> final(order)@ == spec_reorder(
            old(order)@,
            source_pos as int,
            target_pos as int,
        ),
{
    if source_pos != target_pos {
        let moved = order.remove(source_pos);
        order.insert(target_pos, moved);
    }
}

/// The authoritative command a finished drag asks of the backend.
pub struct MoveRequest {
    pub ws_id: u64,
    pub target_idx: usize,
}

/// Ends a drag. At the start position no backend command is due; at a new
/// position the dragged workspace is moved to the 1-based index that the
/// position names.
pub fn end_drag(session: &DragSession, final_position: usize) -> (r: Option<MoveRequest>)
    requires
        final_position < usize::MAX,
    ensures
        (final_position == session.start_position) <==> (r is None),
        r is Some ==> r.unwrap().ws_id == session.dragged_id && r.unwrap().target_idx
            == final_position + 1,
{
    if final_position != session.start_position {
        Option::Some(MoveRequest { ws_id: session.dragged_id, target_idx: final_position + 1 })
    } else {
        Option::None
    }
}

/// The workspace that holds focus in the snapshot, if any: the first one
/// flagged focused, whose focus a successful move must restore.
pub open spec fn spec_first_focused(snaps: Seq<WorkspaceSnapshot>) -> Option<u64>
    decreases snaps.len(),
{
    if snaps.len() == 0 {
        Option::None
    } else if snaps[0].is_focused {
        Option::Some(snaps[0].id)
    } else {
        spec_first_focused(snaps.skip(1))
    }
}

pub fn find_focused(snaps: &Vec<WorkspaceSnapshot>) -> (r: Option<u64>)
    ensures
        r == spec_first_focused(snaps@),
{
    let mut i: usize = 0;
    proof {
        assert(snaps@.skip(0) =~= snaps@);
    }
    while i < snaps.len()
        invariant
            i <= snaps.len(),
            spec_first_focused(snaps@) == spec_first_focused(snaps@.skip(i as int)),
        decreases snaps.len() - i,
    {
        proof {
            assert(snaps@.skip(i as int)[0] == snaps@[i as int]);
            assert(snaps@.skip(i as int).skip(1) =~= snaps@.skip(i + 1));
        }
        if snaps[i].is_focused {
            return Option::Some(snaps[i].id);
        }
        i = i + 1;
    }
    proof {
        assert(snaps@.skip(snaps@.len() as int) =~= Seq::<WorkspaceSnapshot>::empty());
    }
    Option::None
}

/// One backend command of the move protocol.
pub enum BackendCommand {
    MoveToIndex { ws_id: u64, target_idx: usize },
    Focus { ws_id: u64 },
}

/// The commands that complete a drag-end move, in order: exactly one
/// authoritative move of the dragged workspace, then — only when the focus
/// before the drag lay on another workspace — one best-effort refocus of
/// that workspace.
pub fn plan_move(snapshots: &Vec<WorkspaceSnapshot>, ws_id: u64, target_idx: usize) -> (cmds: Vec<
    BackendCommand,
>)
    ensures
        1 <= cmds@.len() <= 2,
        cmds@[0] == (BackendCommand::MoveToIndex { ws_id, target_idx }),
        (cmds@.len() == 2) <==> (spec_first_focused(snapshots@) is Some && spec_first_focused(
            snapshots@,
        ).unwrap() != ws_id),
        cmds@.len() == 2 ==> cmds@[1] == (BackendCommand::Focus {
            ws_id: spec_first_focused(snapshots@).unwrap(),
        }),
{
    let mut cmds: Vec<BackendCommand> = Vec::new();
    cmds.push(BackendCommand::MoveToIndex { ws_id, target_idx });
    if let Option::Some(focused) = find_focused(snapshots) {
        if focused != ws_id {
            cmds.push(BackendCommand::Focus { ws_id: focused });
        }
    }
    cmds
}

} // verus!
