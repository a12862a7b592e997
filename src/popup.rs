use vstd::prelude::*;

verus! {

/// The interaction that opens a popup.
#[derive(Clone, Copy, Debug, PartialEq, Eq, Structural)]
pub enum PopupTrigger {
    /// A click on the anchor opens the panel; a second click closes it.
    Click,
    /// Pointer entering the anchor opens the panel; leaving closes it.
    Hover,
}

/// What happened around a popup, as reported by the embedding view.
#[derive(Clone, Copy, Debug, PartialEq, Eq, Structural)]
pub enum PopupEvent {
    AnchorClick,
    OutsideClick,
    PointerEnter,
    PointerLeave,
}

/// What the embedding view has to do after an event.
#[derive(Clone, Copy, Debug, PartialEq, Eq, Structural)]
pub enum PopupAction {
    /// Nothing changed.
    Stay,
    /// The panel opened: measure the anchor, place the panel and install
    /// the outside-click listener.
    Open,
    /// The panel closed: remove the outside-click listener.
    Close,
}

/// An axis-aligned box on screen, in pixels.
#[derive(Clone, Copy, Debug, PartialEq, Eq, Structural)]
pub struct Rect {
    pub x: i32,
    pub y: i32,
    pub width: u32,
    pub height: u32,
}

/// A pointer position on screen, in pixels.
#[derive(Clone, Copy, Debug, PartialEq, Eq, Structural)]
pub struct Point {
    pub x: i32,
    pub y: i32,
}

/// Where the floating panel goes: its left and top edges, and whether it
/// was flipped to open leftward of the anchor.
#[derive(Clone, Copy, Debug, PartialEq, Eq, Structural)]
pub struct Placement {
    pub x: i64,
    pub y: i64,
    pub leftward: bool,
}

/// Options a popup is built with.
#[derive(Clone, Copy, Debug, PartialEq, Eq)]
pub struct PopupConfig {
    /// Pixel offset `(dx, dy)` of the panel from its anchor point.
    pub offset: (i32, i32),
    pub trigger: PopupTrigger,
    /// Whether the panel applies its own inner padding.
    pub has_default_padding: bool,
}

pub open spec fn contains_point(r: Rect, p: Point) -> bool {
    &&& r.x <= p.x < r.x + r.width
    &&& r.y <= p.y < r.y + r.height
}

/// Open state after `ev`, starting from `open`.
pub open spec fn next_open(trigger: PopupTrigger, open: bool, ev: PopupEvent) -> bool {
    match ev {
        PopupEvent::AnchorClick => if trigger == PopupTrigger::Click { !open } else { open },
        PopupEvent::OutsideClick => false,
        PopupEvent::PointerEnter => if trigger == PopupTrigger::Hover { true } else { open },
        PopupEvent::PointerLeave => if trigger == PopupTrigger::Hover { false } else { open },
    }
}

pub open spec fn action_between(before: bool, after: bool) -> PopupAction {
    if !before && after {
        PopupAction::Open
    } else if before && !after {
        PopupAction::Close
    } else {
        PopupAction::Stay
    }
}

/// The event a click at `p` means: on the anchor it is the anchor's own
/// click, inside the open panel it is nothing, anywhere else it dismisses.
pub open spec fn click_meaning(p: Point, anchor: Rect, panel: Option<Rect>) -> Option<PopupEvent> {
    if contains_point(anchor, p) {
        Some(PopupEvent::AnchorClick)
    } else if panel is Some && contains_point(panel->Some_0, p) {
        None
    } else {
        Some(PopupEvent::OutsideClick)
    }
}

/// Horizontal centre of the anchor's bottom edge.
pub open spec fn anchor_mid_x(a: Rect) -> int {
    a.x + a.width / 2
}

/// Right edge of a panel flipped to open leftward: the anchor's bottom
/// centre mirrored through the offset, but never right of the anchor's
/// left edge.
pub open spec fn flipped_end_x(a: Rect, offset: (i32, i32)) -> int {
    if a.x < anchor_mid_x(a) - offset.0 {
        a.x as int
    } else {
        anchor_mid_x(a) - offset.0
    }
}

/// Placement of a panel `panel_width` wide: at the anchor's bottom centre
/// plus the offset. When that would overflow the viewport on the right, the
/// panel flips to open leftward, ending at `flipped_end_x`, and is shifted
/// right to start at the viewport's left edge if it would begin before it.
/// At the bare offset when the anchor could not be measured.
pub open spec fn placement_of(anchor: Option<Rect>, offset: (i32, i32), panel_width: u32, viewport_width: u32) -> Placement {
    match anchor {
        None => Placement { x: offset.0 as i64, y: offset.1 as i64, leftward: false },
        Some(a) => {
            let right_x = anchor_mid_x(a) + offset.0;
            let y = a.y + a.height + offset.1;
            if right_x + panel_width > viewport_width {
                let x = flipped_end_x(a, offset) - panel_width;
                Placement { x: (if x < 0 { 0 } else { x }) as i64, y: y as i64, leftward: true }
            } else {
                Placement { x: right_x as i64, y: y as i64, leftward: false }
            }
        },
    }
}

/// Tells what a click at `p` means to a popup whose anchor covers `anchor`
/// and whose panel, when shown, covers `panel`.
pub fn classify_click(p: Point, anchor: Rect, panel: Option<Rect>) -> (r: Option<PopupEvent>)
    ensures
        r == click_meaning(p, anchor, panel),
{
    if rect_contains(anchor, p) {
        Some(PopupEvent::AnchorClick)
    } else {
        match panel {
            Some(b) => if rect_contains(b, p) { None } else { Some(PopupEvent::OutsideClick) },
            None => Some(PopupEvent::OutsideClick),
        }
    }
}

/// Whether `p` lies inside `r` (left and top edges included).
pub fn rect_contains(r: Rect, p: Point) -> (b: bool)
    ensures
        b == contains_point(r, p),
{
    let px = p.x as i64;
    let py = p.y as i64;
    r.x as i64 <= px && px < r.x as i64 + r.width as i64 && r.y as i64 <= py && py < r.y as i64
        + r.height as i64
}

/// Computes where the panel goes (see [`placement_of`]).
pub fn compute_placement(anchor: Option<Rect>, offset: (i32, i32), panel_width: u32, viewport_width: u32) -> (r: Placement)
    ensures
        r == placement_of(anchor, offset, panel_width, viewport_width),
{
    match anchor {
        None => Placement { x: offset.0 as i64, y: offset.1 as i64, leftward: false },
        Some(a) => {
            let mid_x = a.x as i64 + (a.width / 2) as i64;
            let right_x = mid_x + offset.0 as i64;
            let y = a.y as i64 + a.height as i64 + offset.1 as i64;
            if right_x + panel_width as i64 > viewport_width as i64 {
                let mirrored = mid_x - offset.0 as i64;
                let end_x = if (a.x as i64) < mirrored { a.x as i64 } else { mirrored };
                let x = end_x - panel_width as i64;
                Placement { x: if x < 0 { 0 } else { x }, y, leftward: true }
            } else {
                Placement { x: right_x, y, leftward: false }
            }
        },
    }
}

/// A popup: an always visible anchor plus a floating panel shown while open.
pub struct Popup {
    pub config: PopupConfig,
    /// Whether the panel is shown.
    pub open: bool,
}

impl Popup {
    /// A closed popup with the given options.
    pub fn new(config: PopupConfig) -> (p: Popup)
        ensures
            p.config == config,
            !p.open,
    {
        Popup { config, open: false }
    }

    pub fn is_open(&self) -> (b: bool)
        ensures
            b == self.open,
    {
        self.open
    }

    /// The outside-click listener is installed exactly while the panel is open.
    pub fn needs_dismiss_listener(&self) -> (b: bool)
        ensures
            b == self.open,
    {
        self.open
    }

    /// Steps the open/closed state machine and says what the view must do.
    pub fn handle(&mut self, ev: PopupEvent) -> (a: PopupAction)
        ensures
            final(self).config == old(self).config,
            final(self).open == next_open(old(self).config.trigger, old(self).open, ev),
            a == action_between(old(self).open, final(self).open),
    {
        let before = self.open;
        let after = match ev {
            PopupEvent::AnchorClick => match self.config.trigger {
                PopupTrigger::Click => !before,
                PopupTrigger::Hover => before,
            },
            PopupEvent::OutsideClick => false,
            PopupEvent::PointerEnter => match self.config.trigger {
                PopupTrigger::Click => before,
                PopupTrigger::Hover => true,
            },
            PopupEvent::PointerLeave => match self.config.trigger {
                PopupTrigger::Click => before,
                PopupTrigger::Hover => false,
            },
        };
        self.open = after;
        if !before && after {
            PopupAction::Open
        } else if before && !after {
            PopupAction::Close
        } else {
            PopupAction::Stay
        }
    }

    /// Back to closed, as on unmount.
    pub fn reset(&mut self) -> (a: PopupAction)
        ensures
            final(self).config == old(self).config,
            !final(self).open,
            a == action_between(old(self).open, false),
    {
        let before = self.open;
        self.open = false;
        if before {
            PopupAction::Close
        } else {
            PopupAction::Stay
        }
    }

    /// Where the panel goes for this popup's offset, measured afresh on
    /// each opening.
    pub fn place(&self, anchor: Option<Rect>, panel_width: u32, viewport_width: u32) -> (r: Placement)
        ensures
            r == placement_of(anchor, self.config.offset, panel_width, viewport_width),
    {
        compute_placement(anchor, self.config.offset, panel_width, viewport_width)
    }
}

/// Click-triggered cycle: a closed popup opens on an anchor click, closes
/// on an outside click, and an anchor click while open closes it again.
/// An outside click closes a popup whatever its trigger.
pub proof fn lemma_click_cycle(trigger: PopupTrigger)
    ensures
        next_open(PopupTrigger::Click, false, PopupEvent::AnchorClick),
        !next_open(PopupTrigger::Click, next_open(PopupTrigger::Click, false, PopupEvent::AnchorClick), PopupEvent::OutsideClick),
        !next_open(PopupTrigger::Click, true, PopupEvent::AnchorClick),
        !next_open(trigger, true, PopupEvent::OutsideClick),
        !next_open(trigger, false, PopupEvent::OutsideClick),
        action_between(false, next_open(PopupTrigger::Click, false, PopupEvent::AnchorClick)) == PopupAction::Open,
        action_between(true, next_open(trigger, true, PopupEvent::OutsideClick)) == PopupAction::Close,
{
}

/// Overflow fallback: when a measured anchor would put the panel past the
/// right edge of the viewport, the panel opens leftward and never starts
/// left of the viewport. Where the room left of the anchor holds the panel,
/// the whole panel lies in that room, so for an anchor that starts inside
/// the viewport it is not clipped on either side, and it starts left of
/// where it would have started unflipped.
pub proof fn lemma_overflow_flips_left(a: Rect, offset: (i32, i32), panel_width: u32, viewport_width: u32)
    requires
        anchor_mid_x(a) + offset.0 + panel_width > viewport_width,
    ensures
        placement_of(Some(a), offset, panel_width, viewport_width).leftward,
        placement_of(Some(a), offset, panel_width, viewport_width).x >= 0,
        placement_of(Some(a), offset, panel_width, viewport_width).y == a.y + a.height + offset.1,
        a.x >= panel_width ==> placement_of(Some(a), offset, panel_width, viewport_width).x + panel_width <= a.x,
        a.x >= panel_width && a.x <= viewport_width ==> {
            &&& placement_of(Some(a), offset, panel_width, viewport_width).x + panel_width <= viewport_width
            &&& placement_of(Some(a), offset, panel_width, viewport_width).x < anchor_mid_x(a) + offset.0
        },
{
}

/// The panel follows its anchor: moving an anchor that fits without
/// overflow, to a place where it still fits, moves the panel's origin by
/// the same amount. The origin is a function of the anchor box passed in,
/// so each opening places the panel from the box measured then.
pub proof fn lemma_origin_follows_anchor(a: Rect, b: Rect, offset: (i32, i32), panel_width: u32, viewport_width: u32)
    requires
        a.width == b.width,
        a.height == b.height,
        anchor_mid_x(a) + offset.0 + panel_width <= viewport_width,
        anchor_mid_x(b) + offset.0 + panel_width <= viewport_width,
    ensures
        placement_of(Some(b), offset, panel_width, viewport_width).x - placement_of(Some(a), offset, panel_width, viewport_width).x
            == b.x - a.x,
        placement_of(Some(b), offset, panel_width, viewport_width).y - placement_of(Some(a), offset, panel_width, viewport_width).y
            == b.y - a.y,
{
}

/// Without overflow the panel's origin is the anchor's bottom centre plus
/// the offset.
pub proof fn lemma_origin_without_overflow(a: Rect, offset: (i32, i32), panel_width: u32, viewport_width: u32)
    requires
        anchor_mid_x(a) + offset.0 + panel_width <= viewport_width,
    ensures
        !placement_of(Some(a), offset, panel_width, viewport_width).leftward,
        placement_of(Some(a), offset, panel_width, viewport_width).x == anchor_mid_x(a) + offset.0,
        placement_of(Some(a), offset, panel_width, viewport_width).y == a.y + a.height + offset.1,
{
}

} // verus!
