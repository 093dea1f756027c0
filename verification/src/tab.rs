//! The three views of the client and the cyclic order between them.

use vstd::prelude::*;

verus! {

/// Each view of the client that can be selected.
#[derive(Debug, Clone, Copy, PartialEq, Eq, Structural)]
pub enum Tab {
    /// The current working copy.
    WorkingCopy,
    /// The known bookmarks.
    Bookmarks,
    /// The commit log.
    Log,
}

impl Tab {
    /// Position of the view in the tab bar, counted from zero.
    pub open spec fn position(self) -> int {
        match self {
            Tab::WorkingCopy => 0,
            Tab::Bookmarks => 1,
            Tab::Log => 2,
        }
    }

    /// The view at a position of the tab bar, positions taken modulo three.
    pub open spec fn at(position: int) -> Tab {
        if position % 3 == 0 {
            Tab::WorkingCopy
        } else if position % 3 == 1 {
            Tab::Bookmarks
        } else {
            Tab::Log
        }
    }

    /// The view one step to the right, wrapping around at the end.
    pub open spec fn successor(self) -> Tab {
        Tab::at(self.position() + 1)
    }

    /// The view one step to the left, wrapping around at the start.
    pub open spec fn predecessor(self) -> Tab {
        Tab::at(self.position() + 2)
    }

    /// The view one step to the right, wrapping around at the end.
    pub fn next(self) -> (r: Tab)
        ensures
            r == self.successor(),
    {
        match self {
            Tab::WorkingCopy => Tab::Bookmarks,
            Tab::Bookmarks => Tab::Log,
            Tab::Log => Tab::WorkingCopy,
        }
    }

    /// The view one step to the left, wrapping around at the start.
    pub fn prev(self) -> (r: Tab)
        ensures
            r == self.predecessor(),
    {
        match self {
            Tab::WorkingCopy => Tab::Log,
            Tab::Bookmarks => Tab::WorkingCopy,
            Tab::Log => Tab::Bookmarks,
        }
    }

    /// The index of the view in the tab bar.
    pub fn index(self) -> (r: usize)
        ensures
            r == self.position(),
    {
        match self {
            Tab::WorkingCopy => 0,
            Tab::Bookmarks => 1,
            Tab::Log => 2,
        }
    }

    /// The title of the view in the tab bar.
    pub fn title(self) -> (t: &'static str)
        ensures
            t@ == self.title_text(),
    {
        match self {
            Tab::WorkingCopy => "1: Working Copy",
            Tab::Bookmarks => "2: Bookmarks",
            Tab::Log => "3: Log",
        }
    }

    /// The title of the view in the tab bar: the key that selects it, and
    /// its name.
    pub open spec fn title_text(self) -> Seq<char> {
        match self {
            Tab::WorkingCopy => "1: Working Copy"@,
            Tab::Bookmarks => "2: Bookmarks"@,
            Tab::Log => "3: Log"@,
        }
    }
}

/// Stepping right and then left, or left and then right, returns to the same
/// view; three steps in one direction go once around.
pub proof fn lemma_tab_cycle(t: Tab)
    ensures
        t.successor().predecessor() == t,
        t.predecessor().successor() == t,
        t.successor().successor().successor() == t,
        t.predecessor().predecessor().predecessor() == t,
        t.successor() != t,
        t.predecessor() != t,
{
}

} // verus!
