//! The events and requests that flow between the components.

use vstd::prelude::*;

use crate::items::{EntryModel, Status};

verus! {

/// A unit of deferred work that the render loop hands to the command worker.
///
/// Only one kind exists today; the queueing and ordering contracts are stated
/// so that more kinds can be added without changing them.
#[derive(Clone, Copy, Debug, PartialEq, Eq, Structural)]
pub enum OutgoingRequest {
    RefreshList,
}

/// One semantic event, produced by the input thread or the command worker and
/// consumed by the render loop.  Immutable once constructed; owned by the
/// dispatcher channel until consumed.
#[derive(Debug)]
pub enum UiEvent {
    /// Ask the application to exit.
    Quit,
    /// Move the selection one entry up, clamped at the first entry.
    MoveUp,
    /// Move the selection one entry down, clamped at the last entry.
    MoveDown,
    /// Clear the selection.
    Unselect,
    /// Toggle the status of the selected entry, if any.
    ActivateOrToggle,
    /// Select the first entry, if any.
    JumpFirst,
    /// Select the last entry, if any.
    JumpLast,
    /// A fresh list arrived from the external source, as `(title, detail)`
    /// records.
    DataRefreshed(Vec<(String, String)>),
    /// The external fetch failed; carries the reason to display.
    FetchFailed(String),
}

/// Mathematical model of a `UiEvent`.
pub enum EventModel {
    Quit,
    MoveUp,
    MoveDown,
    Unselect,
    ActivateOrToggle,
    JumpFirst,
    JumpLast,
    DataRefreshed(Seq<(Seq<char>, Seq<char>)>),
    FetchFailed(Seq<char>),
}

/// The views of a sequence of raw `(title, detail)` records.
pub open spec fn record_views(rs: Seq<(String, String)>) -> Seq<(Seq<char>, Seq<char>)> {
    rs.map_values(|r: (String, String)| (r.0@, r.1@))
}

/// The entry that a raw `(title, detail)` record becomes on a refresh: the
/// status always starts out `Pending`.
pub open spec fn entry_of_record(r: (Seq<char>, Seq<char>)) -> EntryModel {
    EntryModel { todo: r.0, info: r.1, status: Status::Pending }
}

impl View for UiEvent {
    type V = EventModel;

    open spec fn view(&self) -> EventModel {
        match self {
            UiEvent::Quit => EventModel::Quit,
            UiEvent::MoveUp => EventModel::MoveUp,
            UiEvent::MoveDown => EventModel::MoveDown,
            UiEvent::Unselect => EventModel::Unselect,
            UiEvent::ActivateOrToggle => EventModel::ActivateOrToggle,
            UiEvent::JumpFirst => EventModel::JumpFirst,
            UiEvent::JumpLast => EventModel::JumpLast,
            UiEvent::DataRefreshed(rs) => EventModel::DataRefreshed(record_views(rs@)),
            UiEvent::FetchFailed(s) => EventModel::FetchFailed(s@),
        }
    }
}

} // verus!
