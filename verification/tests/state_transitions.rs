use todo_list_tui::event::UiEvent;
use todo_list_tui::items::Status;
use todo_list_tui::state::{render_loop_step, update, ApplicationState, LoopControl};

fn records(titles: &[&str]) -> Vec<(String, String)> {
    let mut out: Vec<(String, String)> = Vec::new();
    for t in titles {
        out.push((t.to_string(), format!("detail of {}", t)));
    }
    out
}

fn state_with(titles: &[&str]) -> ApplicationState {
    let mut s = ApplicationState::default();
    let r = update(&mut s, UiEvent::DataRefreshed(records(titles)));
    assert!(r.is_none());
    s
}

#[test]
fn startup_state_is_empty() {
    let s = ApplicationState::default();
    assert!(!s.should_exit);
    assert_eq!(s.entries.len(), 0);
    assert_eq!(s.selected_index, None);
    assert_eq!(s.last_error, None);
}

#[test]
fn refresh_fills_entries_with_pending_status() {
    let s = state_with(&["alpha", "beta"]);
    assert_eq!(s.entries.len(), 2);
    assert_eq!(s.entries[0].todo, "alpha");
    assert_eq!(s.entries[0].info, "detail of alpha");
    assert_eq!(s.entries[0].status, Status::Pending);
    assert_eq!(s.entries[1].todo, "beta");
    assert_eq!(s.entries[1].status, Status::Pending);
    assert_eq!(s.selected_index, None);
}

#[test]
fn refresh_resets_any_selection() {
    let mut s = state_with(&["a", "b", "c"]);
    update(&mut s, UiEvent::JumpLast);
    assert_eq!(s.selected_index, Some(2));
    update(&mut s, UiEvent::DataRefreshed(records(&["x"])));
    assert_eq!(s.selected_index, None);
    assert_eq!(s.entries.len(), 1);
}

#[test]
fn three_entries_scenario() {
    let mut s = state_with(&["a", "b", "c"]);
    assert_eq!(s.selected_index, None);
    update(&mut s, UiEvent::JumpFirst);
    assert_eq!(s.selected_index, Some(0));
    update(&mut s, UiEvent::MoveDown);
    update(&mut s, UiEvent::MoveDown);
    assert_eq!(s.selected_index, Some(2));
    update(&mut s, UiEvent::MoveDown);
    assert_eq!(s.selected_index, Some(2));
    assert_eq!(s.entries[2].status, Status::Pending);
    update(&mut s, UiEvent::ActivateOrToggle);
    assert_eq!(s.entries[2].status, Status::Completed);
}

#[test]
fn moves_clamp_at_both_ends() {
    let mut s = state_with(&["a", "b"]);
    // From no selection, moving down selects the first entry.
    update(&mut s, UiEvent::MoveDown);
    assert_eq!(s.selected_index, Some(0));
    update(&mut s, UiEvent::MoveUp);
    assert_eq!(s.selected_index, Some(0));
    update(&mut s, UiEvent::MoveDown);
    update(&mut s, UiEvent::MoveDown);
    assert_eq!(s.selected_index, Some(1));
    // From no selection, moving up selects the last entry.
    update(&mut s, UiEvent::Unselect);
    update(&mut s, UiEvent::MoveUp);
    assert_eq!(s.selected_index, Some(1));
}

#[test]
fn selection_never_leaves_bounds_under_random_walk() {
    let mut s = state_with(&["a", "b", "c", "d"]);
    let moves = [0, 0, 1, 0, 1, 1, 1, 1, 0, 1, 0, 0, 0, 0, 0, 1];
    for m in moves {
        let ev = if m == 0 { UiEvent::MoveUp } else { UiEvent::MoveDown };
        update(&mut s, ev);
        let i = s.selected_index.expect("a move on a non-empty list selects");
        assert!(i < s.entries.len());
    }
}

#[test]
fn unselect_clears_selection() {
    let mut s = state_with(&["a"]);
    update(&mut s, UiEvent::JumpFirst);
    assert_eq!(s.selected_index, Some(0));
    update(&mut s, UiEvent::Unselect);
    assert_eq!(s.selected_index, None);
}

#[test]
fn toggle_twice_with_intervening_noop_restores_status() {
    let mut s = state_with(&["a", "b", "c"]);
    update(&mut s, UiEvent::JumpLast);
    assert_eq!(s.entries[2].status, Status::Pending);
    update(&mut s, UiEvent::ActivateOrToggle);
    assert_eq!(s.entries[2].status, Status::Completed);
    // MoveDown on the last entry clamps: a no-op in this state.
    update(&mut s, UiEvent::MoveDown);
    assert_eq!(s.selected_index, Some(2));
    update(&mut s, UiEvent::ActivateOrToggle);
    assert_eq!(s.entries[2].status, Status::Pending);
}

#[test]
fn toggle_without_selection_changes_nothing() {
    let mut s = state_with(&["a"]);
    update(&mut s, UiEvent::ActivateOrToggle);
    assert_eq!(s.entries[0].status, Status::Pending);
    assert_eq!(s.selected_index, None);
}

#[test]
fn empty_list_events_are_no_ops() {
    let mut s = ApplicationState::default();
    for ev in [
        UiEvent::JumpFirst,
        UiEvent::JumpLast,
        UiEvent::ActivateOrToggle,
        UiEvent::MoveUp,
        UiEvent::MoveDown,
    ] {
        update(&mut s, ev);
        assert_eq!(s.selected_index, None);
        assert_eq!(s.entries.len(), 0);
        assert!(!s.should_exit);
    }
}

#[test]
fn quit_sets_exit_flag_and_nothing_else() {
    let mut s = state_with(&["a", "b", "c"]);
    update(&mut s, UiEvent::JumpFirst);
    update(&mut s, UiEvent::MoveDown);
    assert_eq!(s.selected_index, Some(1));
    let r = update(&mut s, UiEvent::Quit);
    assert!(r.is_none());
    assert!(s.should_exit);
    assert_eq!(s.selected_index, Some(1));
    assert_eq!(s.entries.len(), 3);
    assert_eq!(s.entries[0].todo, "a");
    assert_eq!(s.last_error, None);
}

#[test]
fn fetch_failure_is_displayed_and_cleared_by_next_refresh() {
    let mut s = state_with(&["a"]);
    update(&mut s, UiEvent::JumpFirst);
    update(&mut s, UiEvent::FetchFailed("device busy".to_string()));
    assert_eq!(s.last_error, Some("device busy".to_string()));
    // The stale list and the selection survive a failed fetch.
    assert_eq!(s.entries.len(), 1);
    assert_eq!(s.selected_index, Some(0));
    update(&mut s, UiEvent::DataRefreshed(records(&["b", "c"])));
    assert_eq!(s.last_error, None);
    assert_eq!(s.entries.len(), 2);
}

#[test]
fn every_event_returns_no_request() {
    let mut s = state_with(&["a"]);
    for ev in [
        UiEvent::MoveDown,
        UiEvent::MoveUp,
        UiEvent::JumpFirst,
        UiEvent::JumpLast,
        UiEvent::ActivateOrToggle,
        UiEvent::Unselect,
        UiEvent::DataRefreshed(records(&["z"])),
        UiEvent::FetchFailed("why".to_string()),
        UiEvent::Quit,
    ] {
        assert!(update(&mut s, ev).is_none());
    }
}

#[test]
fn loop_step_exits_exactly_on_quit() {
    let mut s = state_with(&["a", "b"]);
    let (req, control) = render_loop_step(&mut s, UiEvent::JumpFirst);
    assert!(req.is_none());
    assert_eq!(control, LoopControl::Continue);
    let (_, control) = render_loop_step(&mut s, UiEvent::Quit);
    assert_eq!(control, LoopControl::Exit);
    assert!(s.should_exit);
}
