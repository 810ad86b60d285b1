//! Keyboard dragging: what a key press does to a draggable, how arrow
//! moves walk the zone hierarchy, and what is announced along the way.
//!
//! Space or Enter picks the focused item up; while it is carried, arrows
//! move between zones, Space or Enter drops, and Escape cancels.

use vstd::prelude::*;

use crate::navigation::{nav_key, nav_key_spec, NavInput, NavKey};
use crate::phrases::{dropped_in, item, over, over_inside, picked_up, zone};
use crate::text::decimal;
use crate::types::{Direction, DragMode, ZoneId};

verus! {

/// A key press, as keyboard dragging reads it.
#[derive(Debug, Clone, Copy, PartialEq, Eq, Structural)]
pub enum KeyPress {
    /// Space or Enter.
    Activate,
    /// Escape.
    Escape,
    /// Any other key; arrows navigate.
    Key(NavInput),
}

/// What a key press does.
#[derive(Debug, Clone, Copy, PartialEq, Eq, Structural)]
pub enum KeyAction {
    /// Start a keyboard drag of this item.
    PickUp,
    /// Move the carried item to another zone.
    Navigate(NavKey),
    /// Drop the carried item on the hovered zone.
    Drop,
    /// Abandon the keyboard drag.
    Cancel,
    /// Nothing.
    Ignore,
}

/// The navigation a press requests, if it is an arrow.
pub open spec fn press_nav(press: KeyPress, dir: Direction) -> Option<NavKey> {
    match press {
        KeyPress::Key(k) => nav_key_spec(k, dir),
        _ => None,
    }
}

/// Outside a drag, activation picks up. Only a keyboard drag in flight
/// listens further: arrows navigate (while a payload is carried),
/// activation drops, Escape cancels.
pub open spec fn key_action_spec(
    press: KeyPress,
    dir: Direction,
    dragging: bool,
    mode: DragMode,
    has_payload: bool,
) -> KeyAction {
    if !dragging && press == KeyPress::Activate {
        KeyAction::PickUp
    } else if !(dragging && mode == DragMode::Keyboard) {
        KeyAction::Ignore
    } else if press_nav(press, dir) is Some && has_payload {
        KeyAction::Navigate(press_nav(press, dir)->Some_0)
    } else if press == KeyPress::Activate {
        KeyAction::Drop
    } else if press == KeyPress::Escape {
        KeyAction::Cancel
    } else {
        KeyAction::Ignore
    }
}

/// Decide what a key press on a draggable does.
pub fn key_action(
    press: KeyPress,
    dir: Direction,
    dragging: bool,
    mode: DragMode,
    has_payload: bool,
) -> (a: KeyAction)
    ensures
        a == key_action_spec(press, dir, dragging, mode, has_payload),
{
    let activate = match press {
        KeyPress::Activate => true,
        _ => false,
    };
    if !dragging && activate {
        return KeyAction::PickUp;
    }
    if !(dragging && mode == DragMode::Keyboard) {
        return KeyAction::Ignore;
    }
    let nav = match press {
        KeyPress::Key(k) => nav_key(k, dir),
        _ => None,
    };
    match nav {
        Some(n) => if has_payload {
            return KeyAction::Navigate(n);
        },
        None => {},
    }
    match press {
        KeyPress::Activate => KeyAction::Drop,
        KeyPress::Escape => KeyAction::Cancel,
        _ => KeyAction::Ignore,
    }
}

/// Where a hierarchical move looks first, before falling back to a
/// sibling step.
#[derive(Debug, Clone, Copy, PartialEq, Eq, Structural)]
pub enum Hierarchy {
    /// The first acceptable child of the hovered zone.
    Child,
    /// The hovered zone's parent, when it is registered.
    Parent,
}

/// How a navigation walks: the level it tries first (if any), and the
/// sibling step (`+1` next, `-1` previous) it takes otherwise. Flat apps
/// (no nesting) thus keep plain next/previous behavior.
pub fn nav_plan(nav: NavKey) -> (r: (Option<Hierarchy>, isize))
    ensures
        r == match nav {
            NavKey::Next => (None, 1isize),
            NavKey::Prev => (None, -1isize),
            NavKey::Descend => (Some(Hierarchy::Child), 1isize),
            NavKey::Ascend => (Some(Hierarchy::Parent), -1isize),
        },
{
    match nav {
        NavKey::Next => (None, 1),
        NavKey::Prev => (None, -1),
        NavKey::Descend => (Some(Hierarchy::Child), 1),
        NavKey::Ascend => (Some(Hierarchy::Parent), -1),
    }
}

/// The spoken name of a zone: its label, else "zone N".
pub open spec fn zone_name_spec(label: Option<Seq<char>>, id: ZoneId) -> Seq<char> {
    match label {
        Some(l) => l,
        None => "zone "@ + decimal(id.0 as nat),
    }
}

/// `s` as a plain value.
pub open spec fn text_of(s: Option<&str>) -> Option<Seq<char>> {
    match s {
        Some(t) => Some(t@),
        None => None,
    }
}

/// The spoken name of zone `id` with optional `label`.
pub fn zone_name(label: Option<&str>, id: ZoneId) -> (s: String)
    ensures
        s@ == zone_name_spec(text_of(label), id),
{
    match label {
        Some(l) => l.to_owned(),
        None => zone(id.0),
    }
}

/// Announced when navigation reaches zone `id`: "Over NAME." or, inside a
/// labeled parent, "Over NAME, inside PARENT."
pub fn over_announcement(label: Option<&str>, id: ZoneId, parent_label: Option<&str>) -> (s: String)
    ensures
        s@ == match parent_label {
            Some(p) => "Over "@ + zone_name_spec(text_of(label), id) + ", inside "@ + p@ + "."@,
            None => "Over "@ + zone_name_spec(text_of(label), id) + "."@,
        },
{
    let name = zone_name(label, id);
    match parent_label {
        Some(p) => over_inside(name.as_str(), p),
        None => over(name.as_str()),
    }
}

/// Announced on a keyboard pickup of an item with optional `label`.
pub fn pickup_announcement(label: Option<&str>) -> (s: String)
    ensures
        s@ == "Picked up "@ + match text_of(label) {
            Some(l) => l,
            None => "item"@,
        } + ". Use arrow keys to choose a drop target, Enter to drop, Escape to cancel."@,
{
    match label {
        Some(l) => picked_up(l),
        None => {
            let name = item();
            picked_up(name.as_str())
        },
    }
}

/// Announced when a keyboard drop lands in zone `id`.
pub fn drop_announcement(label: Option<&str>, id: ZoneId) -> (s: String)
    ensures
        s@ == "Dropped in "@ + zone_name_spec(text_of(label), id) + "."@,
{
    let name = zone_name(label, id);
    dropped_in(name.as_str())
}

/// The zone a keyboard drop lands on: the hovered zone when it is
/// registered here, else the first acceptable zone (which `first` finds,
/// and is only asked for then).
pub fn keyboard_drop_target<F: FnOnce() -> Option<ZoneId>>(
    over: Option<ZoneId>,
    over_registered: bool,
    first: F,
) -> (r: Option<ZoneId>)
    requires
        call_requires(first, ()),
    ensures
        over is Some && over_registered ==> r == over,
        !(over is Some && over_registered) ==> call_ensures(first, (), r),
{
    match over {
        Some(z) => if over_registered {
            return Some(z);
        },
        None => {},
    }
    first()
}

} // verus!
