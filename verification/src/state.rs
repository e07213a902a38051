//! The application state and the pure transition function applied once per
//! dispatched event.

use vstd::prelude::*;

use crate::event::{entry_of_record, EventModel, OutgoingRequest, UiEvent};
use crate::items::{toggled, EntryModel, Status, TodoItem};

verus! {

/// The authoritative in-memory model of the list and selection.
///
/// Owned and mutated by the render loop alone; the input and worker threads
/// only ever see channel endpoints, never this state.
#[derive(Debug)]
pub struct ApplicationState {
    /// Set by `Quit`; the render loop stops once it is true.
    pub should_exit: bool,
    /// The displayed entries, in display order.
    pub entries: Vec<TodoItem>,
    /// The selection cursor; when present it is a valid index into `entries`.
    pub selected_index: Option<usize>,
    /// The reason of the most recent failed refresh, cleared by the next
    /// successful one; rendered as an inline message.
    pub last_error: Option<String>,
}

/// Mathematical model of `ApplicationState`.
#[verifier::ext_equal]
pub struct AppModel {
    pub should_exit: bool,
    pub entries: Seq<EntryModel>,
    pub selected: Option<int>,
    pub last_error: Option<Seq<char>>,
}

impl View for ApplicationState {
    type V = AppModel;

    open spec fn view(&self) -> AppModel {
        AppModel {
            should_exit: self.should_exit,
            entries: self.entries@.map_values(|e: TodoItem| e@),
            selected: match self.selected_index {
                Some(i) => Some(i as int),
                None => None,
            },
            last_error: match self.last_error {
                Some(s) => Some(s@),
                None => None,
            },
        }
    }
}

/// The state invariant: the selection, when present, lies inside the entries.
pub open spec fn state_inv(m: AppModel) -> bool {
    m.selected matches Some(i) ==> 0 <= i < m.entries.len()
}

/// The model of the startup state: empty list, no selection, not exiting.
pub open spec fn init_model() -> AppModel {
    AppModel { should_exit: false, entries: Seq::empty(), selected: None, last_error: None }
}

impl Default for ApplicationState {
    /// The startup state.
    fn default() -> (r: Self)
        ensures
            r@ == init_model(),
    {
        let r = ApplicationState {
            should_exit: false,
            entries: Vec::new(),
            selected_index: None,
            last_error: None,
        };
        proof {
            assert(r@ =~~= init_model());
        }
        r
    }
}

/// Where `MoveDown` puts the selection: one step down from the current
/// position, clamped at the last index; from no selection it selects the
/// first entry; on an empty list there is nothing to select.
pub open spec fn selection_after_down(len: int, sel: Option<int>) -> Option<int> {
    if len == 0 {
        None
    } else {
        match sel {
            None => Some(0),
            Some(i) => if i + 1 < len {
                Some(i + 1)
            } else {
                Some(len - 1)
            },
        }
    }
}

/// Where `MoveUp` puts the selection: one step up from the current position,
/// clamped at index zero; from no selection it selects the last entry; on an
/// empty list there is nothing to select.
pub open spec fn selection_after_up(len: int, sel: Option<int>) -> Option<int> {
    if len == 0 {
        None
    } else {
        match sel {
            None => Some(len - 1),
            Some(i) => if i <= 0 {
                Some(0)
            } else {
                Some(i - 1)
            },
        }
    }
}

/// Where `JumpFirst` puts the selection.
pub open spec fn selection_first(len: int) -> Option<int> {
    if len == 0 {
        None
    } else {
        Some(0)
    }
}

/// Where `JumpLast` puts the selection.
pub open spec fn selection_last(len: int) -> Option<int> {
    if len == 0 {
        None
    } else {
        Some(len - 1)
    }
}

/// The transition table: the state after applying one event.
pub open spec fn step(m: AppModel, e: EventModel) -> AppModel {
    match e {
        EventModel::Quit => AppModel { should_exit: true, ..m },
        EventModel::MoveUp => AppModel {
            selected: selection_after_up(m.entries.len() as int, m.selected),
            ..m
        },
        EventModel::MoveDown => AppModel {
            selected: selection_after_down(m.entries.len() as int, m.selected),
            ..m
        },
        EventModel::Unselect => AppModel { selected: None, ..m },
        EventModel::JumpFirst => AppModel {
            selected: selection_first(m.entries.len() as int),
            ..m
        },
        EventModel::JumpLast => AppModel {
            selected: selection_last(m.entries.len() as int),
            ..m
        },
        EventModel::ActivateOrToggle => match m.selected {
            Some(i) => AppModel {
                entries: m.entries.update(
                    i,
                    (EntryModel { status: toggled(m.entries[i].status), ..m.entries[i] }),
                ),
                ..m
            },
            None => m,
        },
        EventModel::DataRefreshed(rs) => AppModel {
            should_exit: m.should_exit,
            entries: rs.map_values(|r: (Seq<char>, Seq<char>)| entry_of_record(r)),
            selected: None,
            last_error: None,
        },
        EventModel::FetchFailed(reason) => AppModel { last_error: Some(reason), ..m },
    }
}

/// Applies one event to the state.
///
/// This is the pure transition function of the application: it never indexes
/// out of bounds, performs no I/O, and leaves the state exactly as the
/// transition table `step` says.  No event in the current table asks for
/// background work, so the returned request is always `None`; the render loop
/// forwards a returned request to the command worker when one is added.
pub fn update(state: &mut ApplicationState, event: UiEvent) -> (r: Option<OutgoingRequest>)
    requires
        state_inv(old(state)@),
    ensures
        state_inv(final(state)@),
        final(state)@ == step(old(state)@, event@),
        r is None,
{
    let ghost em = event@;
    match event {
        UiEvent::Quit => {
            state.should_exit = true;
            proof {
                assert(state@ =~~= step(old(state)@, em));
            }
        }
        UiEvent::MoveUp => {
            let len = state.entries.len();
            state.selected_index = if len == 0 {
                None
            } else {
                match state.selected_index {
                    None => Some(len - 1),
                    Some(i) => if i == 0 {
                        Some(0)
                    } else {
                        Some(i - 1)
                    },
                }
            };
            proof {
                assert(state@ =~~= step(old(state)@, em));
            }
        }
        UiEvent::MoveDown => {
            let len = state.entries.len();
            state.selected_index = if len == 0 {
                None
            } else {
                match state.selected_index {
                    None => Some(0),
                    Some(i) => if i + 1 < len {
                        Some(i + 1)
                    } else {
                        Some(len - 1)
                    },
                }
            };
            proof {
                assert(state@ =~~= step(old(state)@, em));
            }
        }
        UiEvent::Unselect => {
            state.selected_index = None;
            proof {
                assert(state@ =~~= step(old(state)@, em));
            }
        }
        UiEvent::JumpFirst => {
            let len = state.entries.len();
            state.selected_index = if len == 0 {
                None
            } else {
                Some(0)
            };
            proof {
                assert(state@ =~~= step(old(state)@, em));
            }
        }
        UiEvent::JumpLast => {
            let len = state.entries.len();
            state.selected_index = if len == 0 {
                None
            } else {
                Some(len - 1)
            };
            proof {
                assert(state@ =~~= step(old(state)@, em));
            }
        }
        UiEvent::ActivateOrToggle => {
            if let Some(i) = state.selected_index {
                let new_status = match state.entries[i].status {
                    Status::Pending => Status::Completed,
                    Status::Completed => Status::Pending,
                };
                state.entries[i].status = new_status;
                proof {
                    assert(state@.entries =~= step(old(state)@, em).entries);
                }
            }
            proof {
                assert(state@ =~~= step(old(state)@, em));
            }
        }
        UiEvent::DataRefreshed(records) => {
            let mut records = records;
            let ghost rs0 = records@;
            let mut items: Vec<TodoItem> = Vec::new();
            while records.len() > 0
                invariant
                    items@.len() + records@.len() == rs0.len(),
                    records@ == rs0.skip(items@.len() as int),
                    forall|j: int|
                        0 <= j < items@.len() ==> #[trigger] items@[j]@ == entry_of_record(
                            (rs0[j].0@, rs0[j].1@),
                        ),
                decreases records@.len(),
            {
                let ghost done = items@.len() as int;
                let rec = records.remove(0);
                items.push(TodoItem { todo: rec.0, info: rec.1, status: Status::Pending });
                proof {
                    assert(rec == rs0[done]);
                    assert(records@ =~= rs0.skip(done + 1));
                }
            }
            state.entries = items;
            state.selected_index = None;
            state.last_error = None;
            proof {
                let target = step(old(state)@, em);
                assert(state@.entries =~= target.entries);
                assert(state@ =~~= target);
            }
        }
        UiEvent::FetchFailed(reason) => {
            state.last_error = Some(reason);
            proof {
                assert(state@ =~~= step(old(state)@, em));
            }
        }
    }
    None
}

/// Whether the render loop keeps running after an event.
#[derive(Clone, Copy, Debug, PartialEq, Eq, Structural)]
pub enum LoopControl {
    Continue,
    Exit,
}

/// One iteration of the render loop's decision logic: apply the event, and
/// say whether a request must be forwarded to the command worker and whether
/// the loop is over.  The caller redraws from the new state exactly once per
/// event, then stops on `Exit`.
pub fn render_loop_step(state: &mut ApplicationState, event: UiEvent) -> (r: (
    Option<OutgoingRequest>,
    LoopControl,
))
    requires
        state_inv(old(state)@),
    ensures
        state_inv(final(state)@),
        final(state)@ == step(old(state)@, event@),
        r.0 is None,
        r.1 == (if final(state)@.should_exit {
            LoopControl::Exit
        } else {
            LoopControl::Continue
        }),
{
    let req = update(state, event);
    let control = if state.should_exit {
        LoopControl::Exit
    } else {
        LoopControl::Continue
    };
    (req, control)
}

} // verus!
