//! Window-close policy, window geometry, and the tray host's events as the
//! shell's window reads them. The settings file belongs to the shell: it
//! loads the window section into [`TrayControllerRust`] and saves it back
//! after a setter.

use vstd::prelude::*;
use crate::config::{
    DEFAULT_HEIGHT, DEFAULT_WIDTH, MIN_HEIGHT, MIN_WIDTH, WindowConfig, restored_extent,
};
use crate::tray::{TrayEvent, TrayHub, TraySnapshot, is_available, publish, should_hide_on_close, take_events};

verus! {

/// A saved extent as QML reads it: itself when it fits `i32`, else
/// `i32::MAX`.
pub open spec fn extent_i32(n: u32) -> i32 {
    if n <= i32::MAX {
        n as i32
    } else {
        i32::MAX
    }
}

/// A QML extent as the settings store it: negative counts as zero.
pub open spec fn stored_extent(n: i32) -> u32 {
    if n < 0 {
        0
    } else {
        n as u32
    }
}

fn u32_to_i32(n: u32) -> (r: i32)
    ensures
        r == extent_i32(n),
{
    if n <= 0x7fff_ffff {
        n as i32
    } else {
        i32::MAX
    }
}

/// The window section of the settings, with the rules its readers apply.
pub struct TrayControllerRust {
    pub window: WindowConfig,
}

impl TrayControllerRust {
    /// Persisted close-to-tray preference.
    pub fn close_to_tray(&self) -> (b: bool)
        ensures
            b == self.window.close_to_tray,
    {
        self.window.close_to_tray
    }

    /// Set close-to-tray.
    pub fn set_close_to_tray(&mut self, enabled: bool)
        ensures
            final(self).window == (WindowConfig { close_to_tray: enabled, ..old(self).window }),
    {
        self.window.close_to_tray = enabled;
    }

    /// Whether this close should hide instead of quit: only when the user
    /// wants it and a tray host took the icon.
    pub fn hide_on_close(&self, tray_available: bool) -> (b: bool)
        ensures
            b == (self.window.close_to_tray && tray_available),
    {
        should_hide_on_close(self.window.close_to_tray, tray_available)
    }

    /// Restored window width (default or last saved, clamped).
    pub fn window_width(&self) -> (w: i32)
        ensures
            w == extent_i32(restored_extent(self.window.width, DEFAULT_WIDTH, MIN_WIDTH)),
    {
        u32_to_i32(self.window.restored_width())
    }

    /// Restored window height (default or last saved, clamped).
    pub fn window_height(&self) -> (h: i32)
        ensures
            h == extent_i32(restored_extent(self.window.height, DEFAULT_HEIGHT, MIN_HEIGHT)),
    {
        u32_to_i32(self.window.restored_height())
    }

    /// Whether a previous session saved both coordinates.
    pub fn has_window_position(&self) -> (b: bool)
        ensures
            b == (self.window.x is Some && self.window.y is Some),
    {
        self.window.x.is_some() && self.window.y.is_some()
    }

    /// Last saved window x (0 when unset).
    pub fn window_x(&self) -> (x: i32)
        ensures
            x == match self.window.x {
                Some(v) => v,
                None => 0,
            },
    {
        match self.window.x {
            Some(v) => v,
            None => 0,
        }
    }

    /// Last saved window y (0 when unset).
    pub fn window_y(&self) -> (y: i32)
        ensures
            y == match self.window.y {
                Some(v) => v,
                None => 0,
            },
    {
        match self.window.y {
            Some(v) => v,
            None => 0,
        }
    }

    /// Record window geometry; negative sizes are stored as zero.
    pub fn set_window_geometry(&mut self, x: i32, y: i32, width: i32, height: i32)
        ensures
            final(self).window.x == Some(x),
            final(self).window.y == Some(y),
            final(self).window.width == stored_extent(width),
            final(self).window.height == stored_extent(height),
            final(self).window.close_to_tray == old(self).window.close_to_tray,
    {
        self.window.x = Some(x);
        self.window.y = Some(y);
        self.window.width = if width < 0 {
            0
        } else {
            width as u32
        };
        self.window.height = if height < 0 {
            0
        } else {
            height as u32
        };
    }
}

/// The window's controller: the settings rules above plus the tray hub's
/// events and tooltip.
pub struct TrayController {
    pub rust: TrayControllerRust,
}

impl TrayController {
    /// Drain the tray host's events, oldest first (none while the tray
    /// thread does not run).
    pub fn poll(&self, hub: &mut TrayHub) -> (events: Vec<TrayEvent>)
        requires
            old(hub).wf(),
        ensures
            final(hub).wf(),
            old(hub).running_spec() ==> events@ == old(hub).pending() && final(hub).pending().len()
                == 0,
            !old(hub).running_spec() ==> events@.len() == 0 && final(hub).pending() == old(
                hub,
            ).pending(),
            final(hub).snapshot_spec() == old(hub).snapshot_spec(),
    {
        take_events(hub)
    }

    /// Push now-playing copy into the tray tooltip; returns whether it
    /// changed (nothing changes while the tray thread does not run).
    pub fn set_now_playing(&self, hub: &mut TrayHub, title: String, artist: String, playing: bool) -> (changed: bool)
        requires
            old(hub).wf(),
        ensures
            final(hub).wf(),
            old(hub).running_spec() ==> final(hub).snapshot_spec().title@ == title@
                && final(hub).snapshot_spec().artist@ == artist@
                && final(hub).snapshot_spec().playing == playing,
            !old(hub).running_spec() ==> final(hub).snapshot_spec() == old(hub).snapshot_spec(),
            changed == (old(hub).running_spec() && !(old(hub).snapshot_spec().title@ == title@
                && old(hub).snapshot_spec().artist@ == artist@
                && old(hub).snapshot_spec().playing == playing)),
            final(hub).pending() == old(hub).pending(),
    {
        publish(hub, TraySnapshot { title, artist, playing })
    }

    /// Whether a tray host accepted the icon (false while the tray thread
    /// does not run).
    pub fn is_available(&self, hub: &TrayHub) -> (b: bool)
        ensures
            b == (hub.running_spec() && hub.available_spec()),
    {
        is_available(hub)
    }

    /// Persisted close-to-tray preference.
    pub fn close_to_tray(&self) -> (b: bool)
        ensures
            b == self.rust.window.close_to_tray,
    {
        self.rust.close_to_tray()
    }

    /// Set close-to-tray (the shell saves the settings).
    pub fn set_close_to_tray(&mut self, enabled: bool)
        ensures
            final(self).rust.window == (WindowConfig { close_to_tray: enabled, ..old(self).rust.window }),
    {
        self.rust.set_close_to_tray(enabled);
    }

    /// Whether this close should hide instead of quit.
    pub fn hide_on_close(&self, hub: &TrayHub) -> (b: bool)
        ensures
            b == (self.rust.window.close_to_tray && hub.running_spec() && hub.available_spec()),
    {
        self.rust.hide_on_close(is_available(hub))
    }

    /// Restored window width (default or last saved, clamped).
    pub fn window_width(&self) -> (w: i32)
        ensures
            w == extent_i32(restored_extent(self.rust.window.width, DEFAULT_WIDTH, MIN_WIDTH)),
    {
        self.rust.window_width()
    }

    /// Restored window height (default or last saved, clamped).
    pub fn window_height(&self) -> (h: i32)
        ensures
            h == extent_i32(restored_extent(self.rust.window.height, DEFAULT_HEIGHT, MIN_HEIGHT)),
    {
        self.rust.window_height()
    }

    /// Whether a previous session saved an x/y position.
    pub fn has_window_position(&self) -> (b: bool)
        ensures
            b == (self.rust.window.x is Some && self.rust.window.y is Some),
    {
        self.rust.has_window_position()
    }

    /// Last saved window x (0 when unset).
    pub fn window_x(&self) -> (x: i32)
        ensures
            x == match self.rust.window.x {
                Some(v) => v,
                None => 0,
            },
    {
        self.rust.window_x()
    }

    /// Last saved window y (0 when unset).
    pub fn window_y(&self) -> (y: i32)
        ensures
            y == match self.rust.window.y {
                Some(v) => v,
                None => 0,
            },
    {
        self.rust.window_y()
    }

    /// Record window geometry (the shell debounces and saves).
    pub fn set_window_geometry(&mut self, x: i32, y: i32, width: i32, height: i32)
        ensures
            final(self).rust.window.x == Some(x),
            final(self).rust.window.y == Some(y),
            final(self).rust.window.width == stored_extent(width),
            final(self).rust.window.height == stored_extent(height),
            final(self).rust.window.close_to_tray == old(self).rust.window.close_to_tray,
    {
        self.rust.set_window_geometry(x, y, width, height);
    }
}

} // verus!
