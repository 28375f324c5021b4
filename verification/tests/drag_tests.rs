use niri_workspaces::drag::{begin_drag, drag_motion_reorder, end_drag, plan_move, BackendCommand};
use niri_workspaces::model::WorkspaceSnapshot;

fn ws(id: u64, idx: u32, focused: bool) -> WorkspaceSnapshot {
    WorkspaceSnapshot {
        id,
        idx,
        name: None,
        output: None,
        is_focused: focused,
        is_active: focused,
        is_urgent: false,
        active_window_id: None,
    }
}

#[test]
fn drag_back_to_the_start_issues_no_command() {
    let session = begin_drag(7, 2);
    assert!(end_drag(&session, 2).is_none());
}

#[test]
fn drag_to_a_new_position_moves_to_the_one_based_index() {
    let session = begin_drag(7, 0);
    let request = end_drag(&session, 3).unwrap();
    assert_eq!(request.ws_id, 7);
    assert_eq!(request.target_idx, 4);
}

#[test]
fn motion_over_another_widget_reorders_visually() {
    let mut order = vec![1, 2, 3, 4];
    drag_motion_reorder(&mut order, 0, 2);
    assert_eq!(order, vec![2, 3, 1, 4]);
    let mut back = vec![1, 2, 3, 4];
    drag_motion_reorder(&mut back, 3, 0);
    assert_eq!(back, vec![4, 1, 2, 3]);
}

#[test]
fn motion_over_the_dragged_widget_changes_nothing() {
    let mut order = vec![1, 2, 3];
    drag_motion_reorder(&mut order, 1, 1);
    assert_eq!(order, vec![1, 2, 3]);
}

#[test]
fn move_plan_refocuses_the_previously_focused_workspace() {
    let snaps = vec![ws(1, 1, false), ws(2, 2, true), ws(3, 3, false)];
    let cmds = plan_move(&snaps, 3, 1);
    assert_eq!(cmds.len(), 2);
    match &cmds[0] {
        BackendCommand::MoveToIndex { ws_id, target_idx } => {
            assert_eq!(*ws_id, 3);
            assert_eq!(*target_idx, 1);
        },
        _ => panic!("the first command must be the move"),
    }
    match &cmds[1] {
        BackendCommand::Focus { ws_id } => assert_eq!(*ws_id, 2),
        _ => panic!("the second command must be the refocus"),
    }
}

#[test]
fn move_plan_skips_refocus_when_the_dragged_workspace_holds_focus() {
    let snaps = vec![ws(1, 1, false), ws(2, 2, true)];
    let cmds = plan_move(&snaps, 2, 1);
    assert_eq!(cmds.len(), 1);
    match &cmds[0] {
        BackendCommand::MoveToIndex { ws_id, target_idx } => {
            assert_eq!(*ws_id, 2);
            assert_eq!(*target_idx, 1);
        },
        _ => panic!("the only command must be the move"),
    }
}

#[test]
fn move_plan_without_any_focused_workspace_is_the_move_alone() {
    let snaps = vec![ws(1, 1, false), ws(2, 2, false)];
    let cmds = plan_move(&snaps, 1, 2);
    assert_eq!(cmds.len(), 1);
}
