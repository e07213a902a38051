//! The rows of the displayed list and their mathematical model.

use vstd::prelude::*;

verus! {

/// Completion status of one list entry.
///
/// Totally ordered, with `Pending` before `Completed`, so that comparisons in
/// callers and tests are deterministic.
#[derive(Clone, Copy, Debug, PartialEq, Eq, PartialOrd, Ord, Hash, Structural)]
pub enum Status {
    Pending,
    Completed,
}

/// The status an entry moves to when it is toggled.
pub open spec fn toggled(s: Status) -> Status {
    match s {
        Status::Pending => Status::Completed,
        Status::Completed => Status::Pending,
    }
}

/// One row of the displayed list: a primary line, a detail line, and a
/// toggleable completion status.
#[derive(Debug)]
pub struct TodoItem {
    pub todo: String,
    pub info: String,
    pub status: Status,
}

/// Mathematical model of a `TodoItem`: both strings as character sequences.
#[verifier::ext_equal]
pub struct EntryModel {
    pub todo: Seq<char>,
    pub info: Seq<char>,
    pub status: Status,
}

impl View for TodoItem {
    type V = EntryModel;

    open spec fn view(&self) -> EntryModel {
        EntryModel { todo: self.todo@, info: self.info@, status: self.status }
    }
}

impl TodoItem {
    /// Builds an entry from borrowed text and a status.
    pub fn new(status: Status, todo: &str, info: &str) -> (r: Self)
        ensures
            r@ == (EntryModel { todo: todo@, info: info@, status }),
    {
        Self { status, todo: todo.to_owned(), info: info.to_owned() }
    }

    /// Returns the same entry with the status toggled.
    pub fn with_toggled_status(self) -> (r: Self)
        ensures
            r@ == (EntryModel { status: toggled(self.status), ..self@ }),
    {
        let status = match self.status {
            Status::Pending => Status::Completed,
            Status::Completed => Status::Pending,
        };
        Self { status, ..self }
    }
}

} // verus!
