use vstd::prelude::*;
use crate::error::Error;

verus! {

/// What the engine asks its driver to do next.
///
/// The driver carries the action out against the transport backend (or the
/// clock) and reports back with the matching [`Event`]. `Finish` ends the
/// operation in progress; nothing is to be done for it.
#[derive(Debug)]
pub enum Action {
    /// Raw read of `len` bytes at `register`.
    Read { register: u8, len: usize },
    /// Raw write of `data` at `register`.
    Write { register: u8, data: Vec<u8> },
    /// Pause for `millis` milliseconds without spinning.
    Sleep { millis: u64 },
    /// The operation is over, with this result.
    Finish { result: Result<(), Error> },
}

/// What came of the last [`Action`].
#[derive(Debug)]
pub enum Event {
    /// The raw read succeeded and returned these bytes.
    ReadDone { data: Vec<u8> },
    /// The raw write succeeded.
    WriteDone,
    /// The backend reported an I/O failure.
    Failed,
    /// The pause is over.
    Woke,
}

/// Mathematical form of an [`Action`].
pub enum ActionView {
    Read { register: u8, len: usize },
    Write { register: u8, data: Seq<u8> },
    Sleep { millis: u64 },
    Finish { result: Result<(), Error> },
}

/// Mathematical form of an [`Event`].
pub enum EventView {
    ReadDone { data: Seq<u8> },
    WriteDone,
    Failed,
    Woke,
}

impl View for Action {
    type V = ActionView;

    open spec fn view(&self) -> ActionView {
        match *self {
            Action::Read { register, len } => ActionView::Read { register, len },
            Action::Write { register, data } => ActionView::Write { register, data: data@ },
            Action::Sleep { millis } => ActionView::Sleep { millis },
            Action::Finish { result } => ActionView::Finish { result },
        }
    }
}

impl View for Event {
    type V = EventView;

    open spec fn view(&self) -> EventView {
        match *self {
            Event::ReadDone { data } => EventView::ReadDone { data: data@ },
            Event::WriteDone => EventView::WriteDone,
            Event::Failed => EventView::Failed,
            Event::Woke => EventView::Woke,
        }
    }
}

/// Whether `action` is a register access.
pub open spec fn is_access(action: ActionView) -> bool {
    action is Read || action is Write
}

/// Whether `event` can come of `action`: a read returns as many bytes as
/// were asked for or fails, a write completes or fails, a pause ends.
/// Nothing comes of the end of an operation.
pub open spec fn comes_of(action: ActionView, event: EventView) -> bool {
    match action {
        ActionView::Read { register, len } => match event {
            EventView::ReadDone { data } => data.len() == len,
            EventView::Failed => true,
            _ => false,
        },
        ActionView::Write { register, data } => event is WriteDone || event is Failed,
        ActionView::Sleep { millis } => event is Woke,
        ActionView::Finish { result } => false,
    }
}

/// Milliseconds from `start` to `now` on a clock that never runs backwards;
/// a `now` before `start` counts as no time passed.
pub open spec fn elapsed_ms(start: u64, now: u64) -> u64 {
    if now >= start {
        (now - start) as u64
    } else {
        0
    }
}

/// Computes [`elapsed_ms`].
pub fn elapsed(start: u64, now: u64) -> (d: u64)
    ensures
        d == elapsed_ms(start, now),
{
    if now >= start {
        now - start
    } else {
        0
    }
}

} // verus!
