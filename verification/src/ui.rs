//! Decisions of the web front end's components.
use vstd::prelude::*;

verus! {

/// A tab page is hidden unless it is the current one.
pub fn tab_hidden(id: usize, current_id: usize) -> (hidden: bool)
    ensures
        hidden == (id != current_id),
{
    id != current_id
}

} // verus!
