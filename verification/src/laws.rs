//! Laws of the transition table, stated over the mathematical model and
//! proved for every input.

use vstd::prelude::*;

use crate::event::EventModel;
use crate::items::toggled;
use crate::state::{state_inv, step, AppModel};

verus! {

/// The state after consuming a whole sequence of events, oldest first.
pub open spec fn run_events(m: AppModel, es: Seq<EventModel>) -> AppModel
    decreases es.len(),
{
    if es.len() == 0 {
        m
    } else {
        run_events(step(m, es[0]), es.skip(1))
    }
}

/// One step keeps the selection valid: no event ever leaves the cursor
/// outside the entries.
pub proof fn lemma_step_preserves_inv(m: AppModel, e: EventModel)
    requires
        state_inv(m),
    ensures
        state_inv(step(m, e)),
{
}

/// Any sequence of events keeps the selection valid.
pub proof fn lemma_run_preserves_inv(m: AppModel, es: Seq<EventModel>)
    requires
        state_inv(m),
    ensures
        state_inv(run_events(m, es)),
    decreases es.len(),
{
    if es.len() > 0 {
        lemma_step_preserves_inv(m, es[0]);
        lemma_run_preserves_inv(step(m, es[0]), es.skip(1));
    }
}

/// Under any sequence of `MoveUp` and `MoveDown` events the selection never
/// leaves `[0, entries.len() - 1]` at any intermediate point, and the entries
/// themselves never change.
pub proof fn lemma_moves_never_escape(m: AppModel, es: Seq<EventModel>)
    requires
        state_inv(m),
        forall|k: int|
            0 <= k < es.len() ==> es[k] == EventModel::MoveUp || es[k] == EventModel::MoveDown,
    ensures
        forall|k: int| 0 <= k <= es.len() ==> state_inv(#[trigger] run_events(m, es.take(k))),
        run_events(m, es).entries == m.entries,
    decreases es.len(),
{
    assert forall|k: int| 0 <= k <= es.len() implies state_inv(
        #[trigger] run_events(m, es.take(k)),
    ) by {
        lemma_run_preserves_inv(m, es.take(k));
    }
    if es.len() > 0 {
        let m1 = step(m, es[0]);
        lemma_step_preserves_inv(m, es[0]);
        assert(m1.entries == m.entries);
        assert forall|k: int|
            0 <= k < es.skip(1).len() implies es.skip(1)[k] == EventModel::MoveUp || es.skip(1)[k]
            == EventModel::MoveDown by {
            assert(es.skip(1)[k] == es[k + 1]);
        }
        lemma_moves_never_escape(m1, es.skip(1));
    }
}

/// The cursor clamps instead of wrapping: `MoveDown` on the last entry and
/// `MoveUp` on the first leave the selection where it is.
pub proof fn lemma_moves_clamp(m: AppModel)
    requires
        state_inv(m),
    ensures
        m.selected == Some(m.entries.len() as int - 1) ==> step(m, EventModel::MoveDown).selected
            == m.selected,
        m.selected == Some(0int) ==> step(m, EventModel::MoveUp).selected == m.selected,
{
}

/// A refresh always clears the selection, whatever was selected before: no
/// selection survives the wholesale replacement of the entries.
pub proof fn lemma_refresh_clears_selection(m: AppModel, rs: Seq<(Seq<char>, Seq<char>)>)
    ensures
        step(m, EventModel::DataRefreshed(rs)).selected is None,
{
}

/// Toggling the selected entry twice, with any intervening event that itself
/// changes nothing, returns the state - every entry's status included - to
/// exactly what it was.
pub proof fn lemma_toggle_twice_restores(m: AppModel, e: EventModel)
    requires
        state_inv(m),
        step(step(m, EventModel::ActivateOrToggle), e) == step(m, EventModel::ActivateOrToggle),
    ensures
        step(step(step(m, EventModel::ActivateOrToggle), e), EventModel::ActivateOrToggle) == m,
{
    let m1 = step(m, EventModel::ActivateOrToggle);
    let m2 = step(step(m1, e), EventModel::ActivateOrToggle);
    match m.selected {
        None => {
            assert(m2 == m);
        }
        Some(i) => {
            assert forall|j: int| 0 <= j < m2.entries.len() implies m2.entries[j] == m.entries[j]
            by {
                if j == i {
                    assert(toggled(toggled(m.entries[i].status)) == m.entries[i].status);
                }
            }
            assert(m2.entries =~= m.entries);
            assert(m2 =~~= m);
        }
    }
}

/// With no entries, `JumpFirst`, `JumpLast` and `ActivateOrToggle` change
/// nothing - in particular they never index into the empty list.
pub proof fn lemma_empty_list_no_ops(m: AppModel)
    requires
        state_inv(m),
        m.entries.len() == 0,
    ensures
        step(m, EventModel::JumpFirst) == m,
        step(m, EventModel::JumpLast) == m,
        step(m, EventModel::ActivateOrToggle) == m,
{
    assert(step(m, EventModel::JumpFirst) =~~= m);
    assert(step(m, EventModel::JumpLast) =~~= m);
}

/// `Quit` only raises the exit flag: entries, selection and the error
/// message stay exactly as they were.
pub proof fn lemma_quit_changes_only_exit_flag(m: AppModel)
    ensures
        step(m, EventModel::Quit).should_exit,
        step(m, EventModel::Quit).entries == m.entries,
        step(m, EventModel::Quit).selected == m.selected,
        step(m, EventModel::Quit).last_error == m.last_error,
{
}

} // verus!
