use vstd::prelude::*;
use crate::geometry::{Rect, border_fits, border_rect, zero_rect};
use crate::settings::RuntimeSettings;

verus! {

/// Where in the z-order a positioned window goes.
#[derive(Clone, Copy, Debug, PartialEq, Eq, Structural)]
pub enum InsertAfter {
    /// The top of the z-order.
    Top,
    /// Above all windows that are not topmost, below those that are.
    NotTopmost,
}

/// The flags of a positioning request.
#[derive(Clone, Copy, Debug, PartialEq, Eq, Structural)]
pub struct PositionFlags {
    pub show_window: bool,
    pub hide_window: bool,
    pub no_activate: bool,
}

/// A request to move, show or hide a native window.
#[derive(Clone, Copy, Debug, PartialEq, Eq, Structural)]
pub struct Placement {
    pub hwnd: isize,
    pub rect: Rect,
    pub insert_after: InsertAfter,
    pub flags: PositionFlags,
}

/// The overlay window that outlines the focused window.
#[derive(Debug)]
pub struct BorderWindow {
    hwnd: isize,
    enabled: bool,
    rect: Rect,
}

pub struct BorderModel {
    pub hwnd: isize,
    pub enabled: bool,
    pub rect: Rect,
}

impl View for BorderWindow {
    type V = BorderModel;

    closed spec fn view(&self) -> BorderModel {
        BorderModel { hwnd: self.hwnd, enabled: self.enabled, rect: self.rect }
    }
}

/// The request that hides the overlay without destroying it.
pub open spec fn hide_placement(hwnd: isize) -> Placement {
    Placement {
        hwnd,
        rect: zero_rect(),
        insert_after: InsertAfter::Top,
        flags: PositionFlags { show_window: false, hide_window: true, no_activate: false },
    }
}

/// The request that puts the overlay at `rect`, shown when `activate`, never
/// taking the focus.
pub open spec fn frame_placement(hwnd: isize, rect: Rect, activate: bool) -> Placement {
    Placement {
        hwnd,
        rect,
        insert_after: InsertAfter::NotTopmost,
        flags: PositionFlags { show_window: activate, hide_window: false, no_activate: true },
    }
}

/// The overlay after `disable`, and whether that call hides it.
pub open spec fn disable_step(s: BorderModel) -> (BorderModel, bool) {
    (BorderModel { enabled: false, ..s }, s.enabled)
}

/// The overlay after `enable`, and whether that call asks for the foreground
/// window.
pub open spec fn enable_step(s: BorderModel) -> (BorderModel, bool) {
    (BorderModel { enabled: true, ..s }, !s.enabled)
}

impl BorderWindow {
    /// The overlay for the native window `hwnd`: enabled, not yet placed.
    pub fn new(hwnd: isize) -> (b: Self)
        ensures
            b@ == (BorderModel { hwnd, enabled: true, rect: zero_rect() }),
    {
        BorderWindow { hwnd, enabled: true, rect: Rect::zero() }
    }

    pub fn hwnd(&self) -> (h: isize)
        ensures
            h == self@.hwnd,
    {
        self.hwnd
    }

    pub fn hide_window(&self) -> (p: Placement)
        ensures
            p == hide_placement(self@.hwnd),
    {
        Placement {
            hwnd: self.hwnd,
            rect: Rect::zero(),
            insert_after: InsertAfter::Top,
            flags: PositionFlags { show_window: false, hide_window: true, no_activate: false },
        }
    }

    /// Outlines a window whose bounds are `window`: nothing while disabled;
    /// otherwise the frame is `window` shrunk by the border offset and grown by
    /// the border width, kept as the overlay's rectangle and returned as a
    /// request.
    pub fn set_position(&mut self, window: Rect, settings: &RuntimeSettings, activate: bool) -> (p: Option<Placement>)
        requires
            border_fits(window, settings.border_width, settings.border_offset),
        ensures
            !old(self)@.enabled ==> p is None && final(self)@ == old(self)@,
            old(self)@.enabled ==> final(self)@ == (BorderModel {
                rect: border_rect(window, settings.border_width, settings.border_offset),
                ..old(self)@
            }),
            old(self)@.enabled ==> p == Some(frame_placement(
                old(self)@.hwnd,
                border_rect(window, settings.border_width, settings.border_offset),
                activate,
            )),
    {
        if !self.enabled {
            return None;
        }
        let rect = window.outlined(settings.border_width, settings.border_offset);
        self.rect = rect;
        Some(Placement {
            hwnd: self.hwnd,
            rect,
            insert_after: InsertAfter::NotTopmost,
            flags: PositionFlags { show_window: activate, hide_window: false, no_activate: true },
        })
    }

    /// The rectangle of the last placement.
    pub fn rect(&self) -> (r: Rect)
        ensures
            r == self@.rect,
    {
        self.rect
    }

    /// Disables the overlay; when it was enabled, gives the request that hides
    /// it.
    pub fn disable(&mut self) -> (p: Option<Placement>)
        ensures
            final(self)@ == disable_step(old(self)@).0,
            p is Some <==> disable_step(old(self)@).1,
            p is Some ==> p == Some(hide_placement(old(self)@.hwnd)),
    {
        let was = self.enabled;
        self.enabled = false;
        if was {
            Some(self.hide_window())
        } else {
            None
        }
    }

    /// Enables the overlay; gives `true` when it was disabled, and the caller
    /// is then to place it over the foreground window.
    pub fn enable(&mut self) -> (query_foreground: bool)
        ensures
            final(self)@ == enable_step(old(self)@).0,
            query_foreground == enable_step(old(self)@).1,
    {
        let was = self.enabled;
        self.enabled = true;
        !was
    }

    pub fn is_enabled(&self) -> (b: bool)
        ensures
            b == self@.enabled,
    {
        self.enabled
    }
}

/// Disabling twice hides once: the second call finds the overlay disabled.
pub proof fn lemma_disable_twice(s: BorderModel)
    ensures
        !disable_step(disable_step(s).0).1,
        disable_step(disable_step(s).0).0 == disable_step(s).0,
{
}

/// Enabling an enabled overlay asks for no foreground window and changes
/// nothing.
pub proof fn lemma_enable_enabled(s: BorderModel)
    requires
        s.enabled,
    ensures
        !enable_step(s).1,
        enable_step(s).0 == s,
{
}

} // verus!
