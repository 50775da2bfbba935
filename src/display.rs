//! Geometry of a display surface: the cached rectangle of its OS window and
//! the calls that keep the window and the engine's render size in step.
use vstd::prelude::*;

verus! {

/// Keep the window's size (the size arguments are ignored).
pub const SWP_NOSIZE: u32 = 0x0001;
/// Keep the window's place in the z-order.
pub const SWP_NOZORDER: u32 = 0x0004;
/// Do not activate the window.
pub const SWP_NOACTIVATE: u32 = 0x0010;
/// Show the window.
pub const SWP_SHOWWINDOW: u32 = 0x0040;
/// Discard the client area's old contents.
pub const SWP_NOCOPYBITS: u32 = 0x0100;

/// Flags of a move: no resize, no activation, no copy of old bits.
pub const MOVE_FLAGS: u32 = SWP_NOCOPYBITS | SWP_NOSIZE | SWP_NOACTIVATE;
/// Flags of a resize: no activation, no copy of old bits, z-order kept, shown.
pub const RESIZE_FLAGS: u32 = SWP_NOCOPYBITS | SWP_NOACTIVATE | SWP_NOZORDER | SWP_SHOWWINDOW;

/// The cached geometry of a display.
#[derive(Debug, Clone, Copy, PartialEq, Eq, Structural)]
pub struct DisplayGeometry {
    pub x: i32,
    pub y: i32,
    pub width: u32,
    pub height: u32,
    /// Bit pattern of the single-precision scale factor.
    pub scale: u32,
    /// Whether the next move puts the window below its siblings.
    pub render_at_bottom: bool,
}

/// The OS call that places a window.
#[derive(Debug, Clone, Copy, PartialEq, Eq, Structural)]
pub struct WindowPosCall {
    pub hwnd: u64,
    /// Put the window at the bottom of the z-order, rather than the top.
    /// Ignored where `flags` holds `SWP_NOZORDER`.
    pub insert_at_bottom: bool,
    pub x: i32,
    pub y: i32,
    pub width: u32,
    pub height: u32,
    pub flags: u32,
}

/// The engine command that resizes a display's render surface.
#[derive(Debug, Clone, Copy, PartialEq, Eq, Structural)]
pub struct DisplayResize {
    pub display: u64,
    pub width: u32,
    pub height: u32,
}

/// What a resize asks of the outside world, in this order: place the window,
/// repaint it (erase and invalidate), then resize the engine display on the
/// engine's thread.
#[derive(Debug, Clone, Copy, PartialEq, Eq, Structural)]
pub struct SizeChange {
    pub window: WindowPosCall,
    pub redraw: u64,
    pub resize: DisplayResize,
}

/// A window's client rectangle, as the OS reports it.
#[derive(Debug, Clone, Copy, PartialEq, Eq, Structural)]
pub struct ClientRect {
    pub left: i32,
    pub top: i32,
    pub right: i32,
    pub bottom: i32,
}

impl ClientRect {
    /// Width and height of the rectangle.
    pub fn size(&self) -> (r: (i32, i32))
        requires
            i32::MIN <= self.right - self.left <= i32::MAX,
            i32::MIN <= self.bottom - self.top <= i32::MAX,
        ensures
            r.0 == self.right - self.left,
            r.1 == self.bottom - self.top,
    {
        (self.right - self.left, self.bottom - self.top)
    }
}

/// Geometry state of one display window.
pub struct DisplayWindowManager {
    hwnd: u64,
    obs_display: Option<u64>,
    geometry: DisplayGeometry,
}

impl DisplayWindowManager {
    pub closed spec fn hwnd_spec(&self) -> u64 {
        self.hwnd
    }

    /// The engine display, once it has been created.
    pub closed spec fn display_spec(&self) -> Option<u64> {
        self.obs_display
    }

    pub closed spec fn geometry_spec(&self) -> DisplayGeometry {
        self.geometry
    }

    /// State of window `hwnd` placed at `(x, y)` with size `(width, height)`
    /// and the given scale bits, not at the bottom, before its engine
    /// display exists.
    pub fn new(hwnd: u64, x: i32, y: i32, width: u32, height: u32, scale: u32) -> (r: DisplayWindowManager)
        ensures
            r.hwnd_spec() == hwnd,
            r.display_spec() is None,
            r.geometry_spec() == (DisplayGeometry { x, y, width, height, scale, render_at_bottom: false }),
    {
        DisplayWindowManager {
            hwnd,
            obs_display: None,
            geometry: DisplayGeometry { x, y, width, height, scale, render_at_bottom: false },
        }
    }

    /// Records the engine display created for this window.
    pub fn set_display(&mut self, display: u64)
        ensures
            final(self).display_spec() == Some(display),
            final(self).hwnd_spec() == old(self).hwnd_spec(),
            final(self).geometry_spec() == old(self).geometry_spec(),
    {
        self.obs_display = Some(display);
    }

    pub fn get_display(&self) -> (r: Option<u64>)
        ensures
            r == self.display_spec(),
    {
        self.obs_display
    }

    pub fn set_render_at_bottom(&mut self, render_at_bottom: bool)
        ensures
            final(self).geometry_spec() == (DisplayGeometry { render_at_bottom, ..old(self).geometry_spec() }),
            final(self).hwnd_spec() == old(self).hwnd_spec(),
            final(self).display_spec() == old(self).display_spec(),
    {
        self.geometry.render_at_bottom = render_at_bottom;
    }

    pub fn get_render_at_bottom(&self) -> (r: bool)
        ensures
            r == self.geometry_spec().render_at_bottom,
    {
        self.geometry.render_at_bottom
    }

    /// The OS call that moves the window to `(x, y)`, keeping its size; it
    /// puts the window at the bottom of the z-order where that was asked
    /// for, else at the top. Nothing changes until `set_pos` records how
    /// the call went.
    pub fn move_call(&self, x: i32, y: i32) -> (r: WindowPosCall)
        requires
            self.display_spec() is Some,
        ensures
            r == (WindowPosCall {
                hwnd: self.hwnd_spec(),
                insert_at_bottom: self.geometry_spec().render_at_bottom,
                x,
                y,
                width: 1,
                height: 1,
                flags: MOVE_FLAGS,
            }),
    {
        WindowPosCall {
            hwnd: self.hwnd,
            insert_at_bottom: self.geometry.render_at_bottom,
            x,
            y,
            width: 1,
            height: 1,
            flags: MOVE_FLAGS,
        }
    }

    /// Records the outcome of the move that `move_call(x, y)` described: the
    /// cached position becomes `(x, y)` only where the window did move.
    pub fn set_pos(&mut self, x: i32, y: i32, moved: bool)
        requires
            old(self).display_spec() is Some,
        ensures
            final(self).geometry_spec() == (if moved {
                DisplayGeometry { x, y, ..old(self).geometry_spec() }
            } else {
                old(self).geometry_spec()
            }),
            final(self).hwnd_spec() == old(self).hwnd_spec(),
            final(self).display_spec() == old(self).display_spec(),
    {
        if moved {
            self.geometry.x = x;
            self.geometry.y = y;
        }
    }

    pub fn get_pos(&self) -> (r: (i32, i32))
        ensures
            r == (self.geometry_spec().x, self.geometry_spec().y),
    {
        (self.geometry.x, self.geometry.y)
    }

    /// The state after a resize to `(width, height)`.
    pub closed spec fn with_size(&self, width: u32, height: u32) -> DisplayWindowManager {
        DisplayWindowManager { geometry: DisplayGeometry { width, height, ..self.geometry }, ..*self }
    }

    /// The outside calls that a resize to `(width, height)` asks for.
    pub open spec fn size_change(&self, width: u32, height: u32) -> SizeChange {
        SizeChange {
            window: WindowPosCall {
                hwnd: self.hwnd_spec(),
                insert_at_bottom: false,
                x: self.geometry_spec().x,
                y: self.geometry_spec().y,
                width,
                height,
                flags: RESIZE_FLAGS,
            },
            redraw: self.hwnd_spec(),
            resize: DisplayResize { display: self.display_spec()->0, width, height },
        }
    }

    /// Resizes the window and the engine display to `(width, height)`,
    /// keeping the window's place. The result lists the outside calls, with
    /// exactly one engine resize, of exactly that size.
    pub fn set_size(&mut self, width: u32, height: u32) -> (r: SizeChange)
        requires
            old(self).display_spec() is Some,
        ensures
            *final(self) == old(self).with_size(width, height),
            final(self).geometry_spec() == (DisplayGeometry { width, height, ..old(self).geometry_spec() }),
            final(self).hwnd_spec() == old(self).hwnd_spec(),
            final(self).display_spec() == old(self).display_spec(),
            r == old(self).size_change(width, height),
    {
        self.geometry.width = width;
        self.geometry.height = height;
        let display = match self.obs_display {
            Some(d) => d,
            None => 0,
        };
        SizeChange {
            window: WindowPosCall {
                hwnd: self.hwnd,
                insert_at_bottom: false,
                x: self.geometry.x,
                y: self.geometry.y,
                width,
                height,
                flags: RESIZE_FLAGS,
            },
            redraw: self.hwnd,
            resize: DisplayResize { display, width, height },
        }
    }

    pub fn get_size(&self) -> (r: (u32, u32))
        ensures
            r == (self.geometry_spec().width, self.geometry_spec().height),
    {
        (self.geometry.width, self.geometry.height)
    }

    pub fn set_scale(&mut self, scale: u32)
        ensures
            final(self).geometry_spec() == (DisplayGeometry { scale, ..old(self).geometry_spec() }),
            final(self).hwnd_spec() == old(self).hwnd_spec(),
            final(self).display_spec() == old(self).display_spec(),
    {
        self.geometry.scale = scale;
    }

    pub fn get_scale(&self) -> (r: u32)
        ensures
            r == self.geometry_spec().scale,
    {
        self.geometry.scale
    }
}

/// Resizing a display to `(width, height)` and reading its size back gives
/// exactly `(width, height)`, and the one engine resize that the change
/// carries asks for that same size of the display's own engine surface.
pub proof fn lemma_size_round_trip(d: DisplayWindowManager, width: u32, height: u32)
    requires
        d.display_spec() is Some,
        width > 0,
        height > 0,
    ensures
        d.with_size(width, height).geometry_spec().width == width,
        d.with_size(width, height).geometry_spec().height == height,
        d.size_change(width, height).resize == (DisplayResize { display: d.display_spec()->0, width, height }),
{
}

} // verus!
