//! The built-in English voice of the toolkit: screen-reader announcements
//! and accessible names. Translations replace these phrase by phrase.

use vstd::prelude::*;
use vstd::string::StringExecFns;

use crate::text::{decimal, push_decimal};

verus! {

/// Voiced when a keyboard drag picks an item up; also the user's manual.
pub fn picked_up(name: &str) -> (s: String)
    ensures
        s@ == "Picked up "@ + name@
            + ". Use arrow keys to choose a drop target, Enter to drop, Escape to cancel."@,
{
    let mut s = "Picked up ".to_owned();
    s.append(name);
    s.append(". Use arrow keys to choose a drop target, Enter to drop, Escape to cancel.");
    s
}

/// Voiced when keyboard navigation reaches a zone.
pub fn over(name: &str) -> (s: String)
    ensures
        s@ == "Over "@ + name@ + "."@,
{
    let mut s = "Over ".to_owned();
    s.append(name);
    s.append(".");
    s
}

/// Voiced when keyboard navigation reaches a zone nested in a labeled
/// parent.
pub fn over_inside(name: &str, parent: &str) -> (s: String)
    ensures
        s@ == "Over "@ + name@ + ", inside "@ + parent@ + "."@,
{
    let mut s = "Over ".to_owned();
    s.append(name);
    s.append(", inside ");
    s.append(parent);
    s.append(".");
    s
}

/// Voiced when an arrow key finds nowhere to go.
pub fn no_targets() -> (s: String)
    ensures
        s@ == "No drop targets available."@,
{
    "No drop targets available.".to_owned()
}

/// Voiced when Enter is pressed with no zone selected.
pub fn no_target_selected() -> (s: String)
    ensures
        s@ == "No drop target selected."@,
{
    "No drop target selected.".to_owned()
}

/// Voiced when a keyboard drop lands.
pub fn dropped_in(name: &str) -> (s: String)
    ensures
        s@ == "Dropped in "@ + name@ + "."@,
{
    let mut s = "Dropped in ".to_owned();
    s.append(name);
    s.append(".");
    s
}

/// Voiced when Escape cancels the drag.
pub fn cancelled() -> (s: String)
    ensures
        s@ == "Drag cancelled."@,
{
    "Drag cancelled.".to_owned()
}

/// Fallback name for a draggable with no label.
pub fn item() -> (s: String)
    ensures
        s@ == "item"@,
{
    "item".to_owned()
}

/// Fallback name for a zone with no label, from its id's number.
pub fn zone(n: u64) -> (s: String)
    ensures
        s@ == "zone "@ + decimal(n as nat),
{
    let mut s = "zone ".to_owned();
    push_decimal(&mut s, n);
    s
}

/// The up button's accessible name of a reorderable row.
pub fn move_up(name: &str) -> (s: String)
    ensures
        s@ == "Move "@ + name@ + " up"@,
{
    let mut s = "Move ".to_owned();
    s.append(name);
    s.append(" up");
    s
}

/// The down button's accessible name of a reorderable row.
pub fn move_down(name: &str) -> (s: String)
    ensures
        s@ == "Move "@ + name@ + " down"@,
{
    let mut s = "Move ".to_owned();
    s.append(name);
    s.append(" down");
    s
}

/// Fallback name for a row with no label, from its 1-based number.
pub fn row(n: usize) -> (s: String)
    ensures
        s@ == "item "@ + decimal(n as nat),
{
    let mut s = "item ".to_owned();
    push_decimal(&mut s, n as u64);
    s
}

/// The selection badge: how many items are in flight.
pub fn selection_count(n: usize) -> (s: String)
    ensures
        s@ == decimal(n as nat) + " item(s)"@,
{
    let mut s = String::new();
    push_decimal(&mut s, n as u64);
    s.append(" item(s)");
    proof {
        assert(s@ =~= decimal(n as nat) + " item(s)"@);
    }
    s
}

/// The default accessible name of a board insertion slot.
pub fn insert_at_position(index: usize) -> (s: String)
    ensures
        s@ == "Insert at position "@ + decimal(index as nat),
{
    let mut s = "Insert at position ".to_owned();
    push_decimal(&mut s, index as u64);
    s
}

} // verus!
