//! The two lists of instances.

use vstd::prelude::*;

verus! {

/// Which instances are listed.
#[derive(Clone, Copy, PartialEq, Eq, Structural, Debug)]
pub enum View {
    Favorites,
    All,
}

impl View {
    /// The other list.
    pub open spec fn other(self) -> View {
        match self {
            View::Favorites => View::All,
            View::All => View::Favorites,
        }
    }

    /// The other list.
    pub fn toggle(self) -> (view: View)
        ensures
            view == self.other(),
    {
        match self {
            View::Favorites => View::All,
            View::All => View::Favorites,
        }
    }
}

} // verus!
