use vstd::prelude::*;
use crate::config::Config;

verus! {

/// What the overlay window is to do.
#[derive(Debug, PartialEq, Eq)]
pub enum OverlayAction {
    /// Leave the window as it is.
    NoChange,
    /// Hide the window.
    Hide,
    /// Show `text` in a window of this size at this position.
    Show { text: String, width: u32, height: u32, x: i32, y: i32 },
    /// Stop the window's event loop.
    StopDispatch,
}

/// One step of showing a received text for a while.
#[derive(Debug, PartialEq, Eq)]
pub enum DisplayStep {
    /// Replace the shared display text.
    SetText(String),
    /// Tell the window that the display text changed.
    Notice,
    /// Wait this many seconds.
    Sleep(u32),
}

/// The overlay window: whether it is shown, the text of its label, its size
/// and its position.
pub struct Overlay {
    visible: bool,
    label: String,
    width: u32,
    height: u32,
    x: i32,
    y: i32,
}

pub struct OverlayView {
    pub visible: bool,
    pub label: Seq<char>,
    pub width: u32,
    pub height: u32,
    pub x: i32,
    pub y: i32,
}

impl View for Overlay {
    type V = OverlayView;

    closed spec fn view(&self) -> OverlayView {
        OverlayView {
            visible: self.visible,
            label: self.label@,
            width: self.width,
            height: self.height,
            x: self.x,
            y: self.y,
        }
    }
}

/// The left edge of a window of width `width` whose right edge is at
/// `right` (the width taken as a signed 32-bit number, as the window
/// system takes it).
pub open spec fn left_of(right: i32, width: u32) -> int {
    right - (width as i32)
}

/// The window placement can be computed without overflow.
pub open spec fn placement_fits(corner: (i32, i32), width: u32) -> bool {
    i32::MIN <= left_of(corner.0, width) <= i32::MAX
}

/// Whether a window of width `width` can be placed against `corner`
/// without overflow.
pub fn fits_at_corner(corner: (i32, i32), width: u32) -> (r: bool)
    ensures
        r == placement_fits(corner, width),
{
    let w: i32 = width as i32;
    let left: i64 = (corner.0 as i64) - (w as i64);
    -2147483648i64 <= left && left <= 2147483647i64
}

impl Overlay {
    /// A new overlay: hidden, with an empty label, 200 by 100 pixels at
    /// (200, 0).
    pub fn new() -> (o: Overlay)
        ensures
            o@ == (OverlayView { visible: false, label: Seq::empty(), width: 200, height: 100, x: 200, y: 0 }),
    {
        Overlay { visible: false, label: String::new(), width: 200, height: 100, x: 200, y: 0 }
    }

    /// Reacts to a change of the display text. Without a configuration
    /// nothing changes; an empty text hides the window; any other text is
    /// shown in a window of the configured size whose top right corner is
    /// at `corner` (the top right corner of the monitor).
    pub fn on_notice(&mut self, text: &str, config: Option<&Config>, corner: (i32, i32)) -> (a: OverlayAction)
        requires
            match config {
                Some(c) => text@.len() > 0 ==> placement_fits(corner, c.overlay.width),
                None => true,
            },
        ensures
            match config {
                None => a == OverlayAction::NoChange && final(self)@ == old(self)@,
                Some(c) => if text@.len() == 0 {
                    a == OverlayAction::Hide && final(self)@ == (OverlayView { visible: false, ..old(self)@ })
                } else {
                    a matches OverlayAction::Show { text: t, width, height, x, y } && t@ == text@ && width
                        == c.overlay.width && height == c.overlay.height && x == left_of(corner.0, width)
                        && y == corner.1 && final(self)@ == (OverlayView {
                        visible: true,
                        label: text@,
                        width: width,
                        height: height,
                        x: x,
                        y: y,
                    })
                },
            },
    {
        match config {
            None => OverlayAction::NoChange,
            Some(c) => {
                if text.unicode_len() == 0 {
                    self.visible = false;
                    OverlayAction::Hide
                } else {
                    let width = c.overlay.width;
                    let height = c.overlay.height;
                    let w: i32 = width as i32;
                    let x: i32 = corner.0 - w;
                    let y: i32 = corner.1;
                    self.label = String::from_str(text);
                    self.width = width;
                    self.height = height;
                    self.x = x;
                    self.y = y;
                    self.visible = true;
                    OverlayAction::Show { text: String::from_str(text), width, height, x, y }
                }
            },
        }
    }

    /// Whether the window is shown.
    pub fn visible(&self) -> (v: bool)
        ensures
            v == self@.visible,
    {
        self.visible
    }

    /// The text of the window's label.
    pub fn label(&self) -> (l: &String)
        ensures
            l@ == self@.label,
    {
        &self.label
    }

    /// The window's size.
    pub fn size(&self) -> (s: (u32, u32))
        ensures
            s == (self@.width, self@.height),
    {
        (self.width, self.height)
    }

    /// The window's position.
    pub fn position(&self) -> (p: (i32, i32))
        ensures
            p == (self@.x, self@.y),
    {
        (self.x, self.y)
    }

    /// Closing the window stops its event loop.
    pub fn close(&self) -> (a: OverlayAction)
        ensures
            a == OverlayAction::StopDispatch,
    {
        OverlayAction::StopDispatch
    }

    /// The steps of showing a received `message`: without a configuration
    /// there are none; otherwise the message is put up, left for the
    /// configured show duration, and taken down again.
    pub fn display_steps(message: String, config: Option<&Config>) -> (steps: Vec<DisplayStep>)
        ensures
            match config {
                None => steps@.len() == 0,
                Some(c) => {
                    &&& steps@.len() == 5
                    &&& (steps@[0] matches DisplayStep::SetText(m) && m@ == message@)
                    &&& steps@[1] == DisplayStep::Notice
                    &&& steps@[2] == DisplayStep::Sleep(c.watcher.show_duration)
                    &&& (steps@[3] matches DisplayStep::SetText(e) && e@.len() == 0)
                    &&& steps@[4] == DisplayStep::Notice
                },
            },
    {
        let mut steps: Vec<DisplayStep> = Vec::new();
        match config {
            None => {},
            Some(c) => {
                steps.push(DisplayStep::SetText(message));
                steps.push(DisplayStep::Notice);
                steps.push(DisplayStep::Sleep(c.watcher.show_duration));
                steps.push(DisplayStep::SetText(String::new()));
                steps.push(DisplayStep::Notice);
            },
        }
        steps
    }
}

/// A shown overlay ends where the monitor ends: its left edge plus its width
/// is the right edge it was placed against.
pub proof fn law_overlay_right_aligned(corner: (i32, i32), width: u32)
    ensures
        left_of(corner.0, width) + (width as i32) == corner.0,
{
}

/// A width below 2^31 is placed at `corner.0 - width`, and the placement
/// fits exactly when that stays at or above the smallest 32-bit position: a
/// corner at or left of the origin fits as long as `corner.0 - width` does
/// not pass `i32::MIN`, and any corner with `corner.0 >= i32::MIN + width`
/// fits.
pub proof fn law_placement_fits(corner: (i32, i32), width: u32)
    requires
        width <= i32::MAX,
    ensures
        left_of(corner.0, width) == corner.0 - width,
        placement_fits(corner, width) <==> corner.0 - width >= i32::MIN,
        corner.0 >= 0 ==> placement_fits(corner, width),
{
}

} // verus!
