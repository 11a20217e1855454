//! Back/forward availability and the navigation commands of the history actions.
use vstd::prelude::*;

verus! {

/// The engine's history as it reports it on each change: the visited pages,
/// oldest first, and the index of the current one.
pub struct HistorySnapshot {
    pub entries: Vec<String>,
    pub current: usize,
}

/// Whether going back is possible in a history of `len` pages at `current`.
pub open spec fn can_go_back(len: nat, current: nat) -> bool {
    len > 0 && current > 0
}

/// Whether going forward is possible in a history of `len` pages at `current`.
pub open spec fn can_go_forward(len: nat, current: nat) -> bool {
    len > 0 && current < len - 1
}

impl HistorySnapshot {
    /// Whether the back action is enabled in this history.
    pub fn back_enabled(&self) -> (r: bool)
        ensures
            r == can_go_back(self.entries@.len(), self.current as nat),
    {
        !self.entries.is_empty() && self.current > 0
    }

    /// Whether the forward action is enabled in this history.
    pub fn forward_enabled(&self) -> (r: bool)
        ensures
            r == can_go_forward(self.entries@.len(), self.current as nat),
    {
        !self.entries.is_empty() && self.current < self.entries.len() - 1
    }
}

/// Direction of a history action.
#[derive(Clone, Copy, Debug, PartialEq, Eq, Structural)]
pub enum NavDirection {
    Back,
    Forward,
}

/// A history traversal command for the engine, with its distance in pages.
#[derive(Clone, Copy, Debug, PartialEq, Eq, Structural)]
pub enum Traversal {
    Back(u32),
    Forward(u32),
}

/// The command a history action sends: one page in its direction.
pub fn navigation_command(dir: NavDirection) -> (r: Traversal)
    ensures
        r == (match dir {
            NavDirection::Back => Traversal::Back(1),
            NavDirection::Forward => Traversal::Forward(1),
        }),
{
    match dir {
        NavDirection::Back => Traversal::Back(1),
        NavDirection::Forward => Traversal::Forward(1),
    }
}

} // verus!
