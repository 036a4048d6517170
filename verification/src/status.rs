//! The status cell of a thread: one writer, any number of readers that
//! learn of changes.

use vstd::prelude::*;

verus! {

/// The coarse execution state of a thread.
#[derive(Clone, Copy, Debug, PartialEq, Eq, Structural)]
pub enum AgentStatus {
    /// The thread was created and has not started yet.
    PendingInit,
    /// The thread waits for an operation.
    Idle,
    /// The thread works on an operation.
    Running,
    /// The thread waits for the client to approve a tool call.
    WaitingOnApproval,
    /// The thread stopped after an error.
    Errored,
    /// The thread was shut down.
    Shutdown,
}

/// The number that follows `v` when versions are counted: versions wrap
/// around after the largest one.
pub open spec fn next_version(v: u64) -> u64 {
    if v == u64::MAX {
        0
    } else {
        (v + 1) as u64
    }
}

/// Holds the current status of one thread and counts its updates.
pub struct StatusCell {
    current: AgentStatus,
    version: u64,
}

/// The read-only handle of one observer of a [`StatusCell`]. It remembers
/// which update the observer saw last.
#[derive(Clone, Copy, Debug, PartialEq, Eq, Structural)]
pub struct StatusView {
    seen: u64,
}

impl StatusCell {
    /// The status that was set last.
    pub closed spec fn current(&self) -> AgentStatus {
        self.current
    }

    /// The number of the last update.
    pub closed spec fn version(&self) -> u64 {
        self.version
    }

    /// A cell that holds `initial`.
    pub fn new(initial: AgentStatus) -> (cell: Self)
        ensures
            cell.current() == initial,
            cell.version() == 0,
    {
        StatusCell { current: initial, version: 0 }
    }

    /// Sets the status. Only the execution logic of the thread calls this.
    pub fn update(&mut self, new_status: AgentStatus)
        ensures
            final(self).current() == new_status,
            final(self).version() == next_version(old(self).version()),
    {
        self.current = new_status;
        self.version = if self.version == u64::MAX {
            0
        } else {
            self.version + 1
        };
    }

    /// The current status.
    pub fn get(&self) -> (status: AgentStatus)
        ensures
            status == self.current(),
    {
        self.current
    }

    /// A new observer, which counts the current status as seen.
    pub fn subscribe(&self) -> (view: StatusView)
        ensures
            view.seen() == self.version(),
            !view.changed(*self),
    {
        StatusView { seen: self.version }
    }
}

impl StatusView {
    /// The number of the update that the observer saw last.
    pub closed spec fn seen(&self) -> u64 {
        self.seen
    }

    /// Whether the cell was updated since the observer last looked.
    pub open spec fn changed(&self, cell: StatusCell) -> bool {
        cell.version() != self.seen()
    }

    /// Whether the cell was updated since the observer last looked.
    pub fn has_changed(&self, cell: &StatusCell) -> (changed: bool)
        ensures
            changed == self.changed(*cell),
    {
        cell.version != self.seen
    }

    /// The current status, without marking it as seen.
    pub fn borrow(&self, cell: &StatusCell) -> (status: AgentStatus)
        ensures
            status == cell.current(),
    {
        cell.current
    }

    /// The current status, marked as seen: whatever was set in between is
    /// not reported any more.
    pub fn borrow_and_update(&mut self, cell: &StatusCell) -> (status: AgentStatus)
        ensures
            status == cell.current(),
            final(self).seen() == cell.version(),
            !final(self).changed(*cell),
    {
        self.seen = cell.version;
        cell.current
    }
}

/// An observer that was up to date sees a change after the next update.
pub proof fn lemma_update_is_observed(before: StatusCell, after: StatusCell, view: StatusView)
    requires
        !view.changed(before),
        after.version() == next_version(before.version()),
    ensures
        view.changed(after),
{
}

} // verus!
