//! Moving through the entries of a menu.
use vstd::prelude::*;

verus! {

/// The entry above `selection` in a menu of `entries` entries; above the
/// first entry comes the last.
pub open spec fn entry_above(selection: int, entries: int) -> int {
    if selection <= 0 {
        entries - 1
    } else {
        selection - 1
    }
}

/// The entry below `selection` in a menu of `entries` entries; below the
/// last entry comes the first.
pub open spec fn entry_below(selection: int, entries: int) -> int {
    if selection >= entries - 1 {
        0
    } else {
        selection + 1
    }
}

/// The entry after the up or the down key, up first; the same entry where neither is pressed.
pub open spec fn entry_moved(selection: int, entries: int, up: bool, down: bool) -> int {
    if up {
        entry_above(selection, entries)
    } else if down {
        entry_below(selection, entries)
    } else {
        selection
    }
}

pub fn move_entry(selection: i32, entries: i32, up: bool, down: bool) -> (moved: i32)
    requires
        0 <= selection < entries,
    ensures
        moved == entry_moved(selection as int, entries as int, up, down),
        0 <= moved < entries,
{
    if up {
        if selection == 0 {
            entries - 1
        } else {
            selection - 1
        }
    } else if down {
        if selection == entries - 1 {
            0
        } else {
            selection + 1
        }
    } else {
        selection
    }
}

/// Going up and then down, or down and then up, leads back to the entry.
pub proof fn lemma_up_and_down_cancel(selection: int, entries: int)
    requires
        0 <= selection < entries,
    ensures
        entry_below(entry_above(selection, entries), entries) == selection,
        entry_above(entry_below(selection, entries), entries) == selection,
        0 <= entry_above(selection, entries) < entries,
        0 <= entry_below(selection, entries) < entries,
{
}

} // verus!
