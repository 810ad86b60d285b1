//! Shared identity and vocabulary types used by every drop module.

use vstd::prelude::*;
use vstd::string::StrSliceExecFns;

verus! {

/// Identifies a drop zone (a list, a column, a canvas, a tree node...).
///
/// Explicit ids written by hand are expected to fit in a `u32`; ids from
/// `ZoneId::auto` start at `AUTO_ID_BASE`, so the two ranges can never
/// collide.
#[derive(Debug, Clone, Copy, PartialEq, Eq, Hash, PartialOrd, Ord, Structural)]
pub struct ZoneId(pub u64);

/// Identifies a draggable item.
#[derive(Debug, Clone, Copy, PartialEq, Eq, Hash, PartialOrd, Ord, Structural)]
pub struct DragId(pub u64);

/// Identifies one pointer-drag gesture from pickup through its exactly-once
/// completion. Unlike [`DragId`], it is fresh for every gesture.
#[derive(Debug, Clone, Copy, PartialEq, Eq, Hash, PartialOrd, Ord, Structural)]
pub struct DragSessionId(pub u64);

/// The first id handed out by automatic id generation: every id below it
/// (anything that fits in a `u32`) is reserved for explicit ids.
pub const AUTO_ID_BASE: u64 = 0x1_0000_0000u64;

/// Is `id` in the range reserved for automatically generated ids?
pub open spec fn is_auto_range(id: u64) -> bool {
    id >= AUTO_ID_BASE
}

impl ZoneId {
    /// Whether this id lies in the automatic range, above every explicit
    /// (`u32`-sized) id.
    pub fn is_auto(self) -> (b: bool)
        ensures
            b == is_auto_range(self.0),
    {
        self.0 >= AUTO_ID_BASE
    }
}

impl From<u64> for ZoneId {
    fn from(v: u64) -> (z: Self) {
        ZoneId(v)
    }
}

impl vstd::std_specs::convert::FromSpecImpl<u64> for ZoneId {
    open spec fn obeys_from_spec() -> bool {
        true
    }

    open spec fn from_spec(v: u64) -> Self {
        ZoneId(v)
    }
}

impl From<u64> for DragId {
    fn from(v: u64) -> (d: Self) {
        DragId(v)
    }
}

impl vstd::std_specs::convert::FromSpecImpl<u64> for DragId {
    open spec fn obeys_from_spec() -> bool {
        true
    }

    open spec fn from_spec(v: u64) -> Self {
        DragId(v)
    }
}

/// One side of a drop zone's rectangle - which edge the pointer is nearest.
/// Edges are physical, not logical: they don't mirror under RTL.
#[derive(Debug, Clone, Copy, PartialEq, Eq, Structural)]
pub enum Edge {
    Top,
    Right,
    Bottom,
    Left,
}

/// The attribute text of each edge.
pub open spec fn edge_name(e: Edge) -> Seq<char> {
    match e {
        Edge::Top => "top"@,
        Edge::Right => "right"@,
        Edge::Bottom => "bottom"@,
        Edge::Left => "left"@,
    }
}

impl Edge {
    /// The attribute value a drop zone renders in `data-edge`.
    pub fn as_str(self) -> (s: &'static str)
        ensures
            s@ == edge_name(self),
    {
        match self {
            Edge::Top => "top",
            Edge::Right => "right",
            Edge::Bottom => "bottom",
            Edge::Left => "left",
        }
    }
}

/// Which edges compete when choosing the nearest edge. Named by stacking
/// direction: a `Vertical` list stacks items top to bottom, so its
/// insertion candidates are the top and bottom edges.
#[derive(Debug, Clone, Copy, PartialEq, Eq, Structural)]
pub enum EdgeSet {
    /// All four edges.
    All,
    /// Top and bottom only - items stacked vertically.
    Vertical,
    /// Left and right only - items flowing horizontally.
    Horizontal,
}

impl Default for EdgeSet {
    fn default() -> (s: Self)
        ensures
            s == EdgeSet::All,
    {
        EdgeSet::All
    }
}

/// Membership of an edge in an edge set.
pub open spec fn edge_allowed(set: EdgeSet, edge: Edge) -> bool {
    match set {
        EdgeSet::All => true,
        EdgeSet::Vertical => edge == Edge::Top || edge == Edge::Bottom,
        EdgeSet::Horizontal => edge == Edge::Left || edge == Edge::Right,
    }
}

impl EdgeSet {
    /// Does this set let `edge` compete?
    pub fn allows(self, edge: Edge) -> (b: bool)
        ensures
            b == edge_allowed(self, edge),
    {
        match self {
            EdgeSet::All => true,
            EdgeSet::Vertical => match edge {
                Edge::Top | Edge::Bottom => true,
                _ => false,
            },
            EdgeSet::Horizontal => match edge {
                Edge::Left | Edge::Right => true,
                _ => false,
            },
        }
    }
}

/// Horizontal layout direction. Keyboard navigation mirrors under RTL.
#[derive(Debug, Clone, Copy, PartialEq, Eq, Structural)]
pub enum Direction {
    /// Left-to-right (the default).
    Ltr,
    /// Right-to-left (Arabic, Hebrew, ...).
    Rtl,
}

impl Default for Direction {
    fn default() -> (d: Self)
        ensures
            d == Direction::Ltr,
    {
        Direction::Ltr
    }
}

/// How the current drag is being driven.
#[derive(Debug, Clone, Copy, PartialEq, Eq, Structural)]
#[non_exhaustive]
pub enum DragMode {
    /// Pointer-event driven drag (the default).
    Pointer,
    /// Keyboard-driven drag (Space/Enter to pick up, arrows to navigate).
    Keyboard,
}

impl Default for DragMode {
    fn default() -> (m: Self)
        ensures
            m == DragMode::Pointer,
    {
        DragMode::Pointer
    }
}

/// Which kind of pointer device is driving a pointer drag. Anything
/// unrecognized is a `Mouse`, the safe default for glue (bridge it).
#[derive(Debug, Clone, Copy, PartialEq, Eq, Structural)]
#[non_exhaustive]
pub enum PointerKind {
    /// A mouse - or anything unrecognized.
    Mouse,
    /// A touch contact; implicitly captured by the browser.
    Touch,
    /// A pen/stylus; routed like a mouse for capture purposes.
    Pen,
}

impl Default for PointerKind {
    fn default() -> (k: Self)
        ensures
            k == PointerKind::Mouse,
    {
        PointerKind::Mouse
    }
}

/// The kind a DOM `pointerType` string names.
pub open spec fn pointer_kind_of(pointer_type: Seq<char>) -> PointerKind {
    if pointer_type == "touch"@ {
        PointerKind::Touch
    } else if pointer_type == "pen"@ {
        PointerKind::Pen
    } else {
        PointerKind::Mouse
    }
}

/// Character-wise comparison of two strings.
pub fn same_text(a: &str, b: &str) -> (r: bool)
    ensures
        r == (a@ == b@),
{
    let n = a.unicode_len();
    if n != b.unicode_len() {
        return false;
    }
    let mut i: usize = 0;
    while i < n
        invariant
            n == a@.len(),
            n == b@.len(),
            i <= n,
            forall|j: int| 0 <= j < i ==> a@[j] == b@[j],
        decreases n - i,
    {
        if a.get_char(i) != b.get_char(i) {
            return false;
        }
        i = i + 1;
    }
    assert(a@ =~= b@);
    true
}

impl PointerKind {
    /// Map a DOM `pointerType` string (`"mouse"` / `"touch"` / `"pen"`, or
    /// empty when the browser cannot tell) to a kind.
    pub fn from_pointer_type(pointer_type: &str) -> (k: Self)
        ensures
            k == pointer_kind_of(pointer_type@),
    {
        if same_text(pointer_type, "touch") {
            PointerKind::Touch
        } else if same_text(pointer_type, "pen") {
            PointerKind::Pen
        } else {
            PointerKind::Mouse
        }
    }

    /// Does the browser implicitly capture this pointer to the source
    /// element? Only touch is; mouse and pen need bridging.
    pub fn implicitly_captured(&self) -> (b: bool)
        ensures
            b == (*self == PointerKind::Touch),
    {
        match self {
            PointerKind::Touch => true,
            _ => false,
        }
    }
}

/// How a draggable shares touch input with the page's native gestures.
#[derive(Debug, Clone, Copy, PartialEq, Eq, Structural)]
pub enum TouchSense {
    /// `touch-action: pan-y`: a vertical swipe keeps scrolling, a hold or a
    /// sideways pull picks the item up (the default).
    Auto,
    /// The element owns every touch from the first pixel.
    Immediate,
}

impl Default for TouchSense {
    fn default() -> (t: Self)
        ensures
            t == TouchSense::Auto,
    {
        TouchSense::Auto
    }
}

/// The inline style text of a drag surface under each touch policy.
pub open spec fn touch_style_text(touch: TouchSense) -> Seq<char> {
    match touch {
        TouchSense::Auto => "touch-action: pan-y pinch-zoom; user-select: none; -webkit-user-select: none; -webkit-touch-callout: none;"@,
        TouchSense::Immediate => "touch-action: none; user-select: none; -webkit-user-select: none; -webkit-touch-callout: none;"@,
    }
}

/// The functional inline style for a drag surface under each touch policy.
/// `Auto` keeps vertical panning and pinch-zoom; `Immediate` owns every
/// touch. Both pin down text selection so a long-press cannot select.
pub fn touch_style(touch: TouchSense) -> (s: &'static str)
    ensures
        s@ == touch_style_text(touch),
{
    match touch {
        TouchSense::Auto => "touch-action: pan-y pinch-zoom; user-select: none; -webkit-user-select: none; -webkit-touch-callout: none;",
        TouchSense::Immediate => "touch-action: none; user-select: none; -webkit-user-select: none; -webkit-touch-callout: none;",
    }
}

/// The visual/semantic effect of a drop, mirroring the HTML5
/// `dropEffect`/`effectAllowed` vocabulary.
#[derive(Debug, Clone, Copy, PartialEq, Eq, Structural)]
pub enum DropEffect {
    Move,
    Copy,
    Link,
    /// Drops disabled (the DOM's `"none"`).
    Disabled,
}

impl Default for DropEffect {
    fn default() -> (e: Self)
        ensures
            e == DropEffect::Move,
    {
        DropEffect::Move
    }
}

/// The `DataTransfer` text of each effect.
pub open spec fn effect_name(e: DropEffect) -> Seq<char> {
    match e {
        DropEffect::Move => "move"@,
        DropEffect::Copy => "copy"@,
        DropEffect::Link => "link"@,
        DropEffect::Disabled => "none"@,
    }
}

impl DropEffect {
    /// The string the native `DataTransfer` API expects.
    pub fn as_str(&self) -> (s: &'static str)
        ensures
            s@ == effect_name(*self),
    {
        match self {
            DropEffect::Move => "move",
            DropEffect::Copy => "copy",
            DropEffect::Link => "link",
            DropEffect::Disabled => "none",
        }
    }
}

/// The modifier keys held during a drag, as far as effect selection cares.
/// `shift` is carried for completeness; no effect depends on it.
#[derive(Debug, Clone, Copy, PartialEq, Eq, Structural)]
pub struct KeyModifiers {
    pub ctrl: bool,
    pub meta: bool,
    pub alt: bool,
    pub shift: bool,
}

impl KeyModifiers {
    /// No modifier held.
    pub fn empty() -> (m: Self)
        ensures
            !m.ctrl && !m.meta && !m.alt && !m.shift,
    {
        KeyModifiers { ctrl: false, meta: false, alt: false, shift: false }
    }
}

/// The file-manager convention: Ctrl/Cmd forces Copy, Alt forces Link,
/// otherwise the base effect applies; a `Disabled` base is never overridden.
pub open spec fn effective_effect_spec(base: DropEffect, modifiers: KeyModifiers) -> DropEffect {
    if base == DropEffect::Disabled {
        base
    } else if modifiers.ctrl || modifiers.meta {
        DropEffect::Copy
    } else if modifiers.alt {
        DropEffect::Link
    } else {
        base
    }
}

/// Resolve the drop effect a drag should use given the currently held
/// modifier keys: Ctrl/Cmd forces Copy, Alt forces Link (Ctrl wins when
/// both are held), otherwise the drag's base effect applies. A base of
/// `Disabled` (drops disabled) is never overridden.
pub fn effective_effect(base: DropEffect, modifiers: KeyModifiers) -> (e: DropEffect)
    ensures
        e == effective_effect_spec(base, modifiers),
{
    if base == DropEffect::Disabled {
        return base;
    }
    if modifiers.ctrl || modifiers.meta {
        DropEffect::Copy
    } else if modifiers.alt {
        DropEffect::Link
    } else {
        base
    }
}

/// Everything a consumer needs to know about a completed drop.
///
/// `P` is the host's point type (client-pixel coordinates); the library
/// carries the three points through untouched and never reads them.
#[derive(Debug, Clone, PartialEq)]
pub struct DropOutcome<T, P> {
    /// The payload that was being dragged.
    pub payload: T,
    /// The zone the drag originated from, if the source declared one.
    pub from: Option<ZoneId>,
    /// The zone that received the drop.
    pub to: ZoneId,
    /// The effect the drop settled on.
    pub effect: DropEffect,
    /// Which input path produced this completed drop.
    pub mode: DragMode,
    /// Pointer position in client (viewport) coordinates at drop time.
    pub client: P,
    /// Pointer position relative to the drop zone's element.
    pub element: P,
    /// Where inside the dragged element the pointer grabbed it, at pickup.
    pub grab: P,
    /// The zone edge nearest the release point, when the receiving zone
    /// opted in and the drop was pointer-driven; `None` for keyboard drops.
    pub edge: Option<Edge>,
}

} // verus!
