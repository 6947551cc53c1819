//! Tray presence policy: when closing hides instead of quitting, what the
//! tooltip says, and the hub that carries host clicks to the UI thread and
//! now-playing copy to the tray thread.

use vstd::prelude::*;
use crate::text::{chars_of, string_of};

verus! {

/// How many host events wait for the UI poll; later ones are dropped.
pub const EVENT_CHANNEL_DEPTH: usize = 32;

/// Inbound host actions, drained on the UI thread.
#[derive(Clone, Copy, Debug, PartialEq, Eq, Structural)]
pub enum TrayEvent {
    /// Left click / activate at host pixels (`0,0` means unknown).
    Popup { x: i32, y: i32 },
    /// Right click / context menu at the same coordinates.
    Menu { x: i32, y: i32 },
    /// Middle click: play/pause without opening a surface.
    PlayPause,
}

/// Now-playing copy published into the tooltip.
#[derive(Clone, Debug)]
pub struct TraySnapshot {
    /// Track title; empty when idle.
    pub title: String,
    /// Track artist; empty when untagged or idle.
    pub artist: String,
    /// Whether the engine is currently playing.
    pub playing: bool,
}

impl TraySnapshot {
    /// Idle copy: no title, no artist, not playing.
    pub fn idle() -> (s: Self)
        ensures
            s.title@.len() == 0,
            s.artist@.len() == 0,
            !s.playing,
    {
        TraySnapshot { title: String::new(), artist: String::new(), playing: false }
    }

    /// Whether two snapshots carry the same copy.
    pub fn same_as(&self, other: &TraySnapshot) -> (b: bool)
        ensures
            b == (self.title@ == other.title@ && self.artist@ == other.artist@ && self.playing
                == other.playing),
    {
        self.title == other.title && self.artist == other.artist && self.playing == other.playing
    }
}

/// Hide-on-close is the setting *and* a live tray host. A missing host must
/// never leave a headless process behind.
pub fn should_hide_on_close(close_to_tray: bool, tray_available: bool) -> (b: bool)
    ensures
        b == (close_to_tray && tray_available),
{
    close_to_tray && tray_available
}

/// Tooltip title: the track name, or the app name when idle.
pub fn tooltip_title(title: &str) -> (t: String)
    ensures
        t@ == if title@.len() == 0 {
            "TuneX"@
        } else {
            title@
        },
{
    let chars = chars_of(title);
    if chars.len() == 0 {
        string_of(chars_of("TuneX").as_slice())
    } else {
        string_of(chars.as_slice())
    }
}

/// Tooltip body: artist when known, otherwise an honest idle/playing line.
pub fn tooltip_body(artist: &str, playing: bool, has_track: bool) -> (t: String)
    ensures
        t@ == if artist@.len() > 0 {
            artist@
        } else if !has_track {
            "Nothing playing"@
        } else if playing {
            "Playing"@
        } else {
            "Paused"@
        },
{
    let chars = chars_of(artist);
    if chars.len() > 0 {
        return string_of(chars.as_slice());
    }
    if !has_track {
        return string_of(chars_of("Nothing playing").as_slice());
    }
    if playing {
        string_of(chars_of("Playing").as_slice())
    } else {
        string_of(chars_of("Paused").as_slice())
    }
}

/// Icon name the host should look up: the packaged icon when installed,
/// otherwise one every stock desktop theme has.
pub fn theme_icon_name(packaged_icon_installed: bool) -> (name: &'static str)
    ensures
        name@ == if packaged_icon_installed {
            "tunex"@
        } else {
            "audio-x-generic"@
        },
{
    if packaged_icon_installed {
        "tunex"
    } else {
        "audio-x-generic"
    }
}

/// Process-wide tray state: whether the tray thread runs, the tooltip copy
/// and whether it changed since the tray thread last republished it,
/// whether a host accepted the icon, and host events waiting for the UI
/// poll (oldest first).
pub struct TrayHub {
    running: bool,
    snapshot: TraySnapshot,
    dirty: bool,
    available: bool,
    events: Vec<TrayEvent>,
}

impl TrayHub {
    /// Whether the tray thread was started over this hub.
    pub closed spec fn running_spec(&self) -> bool {
        self.running
    }

    /// Published copy.
    pub closed spec fn snapshot_spec(&self) -> TraySnapshot {
        self.snapshot
    }

    /// Whether the copy changed since the tray thread last looked.
    pub closed spec fn dirty_spec(&self) -> bool {
        self.dirty
    }

    /// Whether a host accepted the icon.
    pub closed spec fn available_spec(&self) -> bool {
        self.available
    }

    /// Host events waiting for the UI poll, oldest first.
    pub closed spec fn pending(&self) -> Seq<TrayEvent> {
        self.events@
    }

    /// Bounded by the channel depth.
    pub closed spec fn wf(&self) -> bool {
        self.events@.len() <= EVENT_CHANNEL_DEPTH
    }

    /// Fresh hub: idle copy, nothing pending, no host yet.
    pub fn new() -> (hub: Self)
        ensures
            hub.wf(),
            !hub.running_spec(),
            hub.pending().len() == 0,
            !hub.available_spec(),
            !hub.dirty_spec(),
            hub.snapshot_spec().title@.len() == 0,
            hub.snapshot_spec().artist@.len() == 0,
            !hub.snapshot_spec().playing,
    {
        TrayHub {
            running: false,
            snapshot: TraySnapshot::idle(),
            dirty: false,
            available: false,
            events: Vec::new(),
        }
    }

    /// The tray thread now runs over this hub: from here on, the process
    /// functions below publish into it and drain it.
    pub fn install(&mut self)
        requires
            old(self).wf(),
        ensures
            final(self).wf(),
            final(self).running_spec(),
            final(self).snapshot_spec() == old(self).snapshot_spec(),
            final(self).dirty_spec() == old(self).dirty_spec(),
            final(self).available_spec() == old(self).available_spec(),
            final(self).pending() == old(self).pending(),
    {
        self.running = true;
    }

    /// Publish now-playing copy. Identical copy is a no-op; new copy is
    /// stored and marked for the tray thread. Returns whether it changed.
    pub fn publish(&mut self, snapshot: TraySnapshot) -> (changed: bool)
        requires
            old(self).wf(),
        ensures
            final(self).running_spec() == old(self).running_spec(),
            final(self).wf(),
            final(self).pending() == old(self).pending(),
            final(self).available_spec() == old(self).available_spec(),
            changed == !(old(self).snapshot_spec().title@ == snapshot.title@
                && old(self).snapshot_spec().artist@ == snapshot.artist@
                && old(self).snapshot_spec().playing == snapshot.playing),
            changed ==> final(self).snapshot_spec() == snapshot && final(self).dirty_spec(),
            !changed ==> final(self).snapshot_spec() == old(self).snapshot_spec()
                && final(self).dirty_spec() == old(self).dirty_spec(),
    {
        if self.snapshot.same_as(&snapshot) {
            return false;
        }
        self.snapshot = snapshot;
        self.dirty = true;
        true
    }

    /// The published copy.
    pub fn snapshot(&self) -> (s: &TraySnapshot)
        ensures
            *s == self.snapshot_spec(),
    {
        &self.snapshot
    }

    /// Take the dirty mark (the tray thread republishes when it was set).
    pub fn take_dirty(&mut self) -> (was: bool)
        requires
            old(self).wf(),
        ensures
            final(self).running_spec() == old(self).running_spec(),
            final(self).wf(),
            was == old(self).dirty_spec(),
            !final(self).dirty_spec(),
            final(self).pending() == old(self).pending(),
            final(self).snapshot_spec() == old(self).snapshot_spec(),
            final(self).available_spec() == old(self).available_spec(),
    {
        let was = self.dirty;
        self.dirty = false;
        was
    }

    /// Record that a host accepted (or dropped) the icon.
    pub fn set_available(&mut self, available: bool)
        requires
            old(self).wf(),
        ensures
            final(self).running_spec() == old(self).running_spec(),
            final(self).wf(),
            final(self).available_spec() == available,
            final(self).pending() == old(self).pending(),
            final(self).snapshot_spec() == old(self).snapshot_spec(),
            final(self).dirty_spec() == old(self).dirty_spec(),
    {
        self.available = available;
    }

    /// Whether a tray host accepted our registration.
    pub fn is_available(&self) -> (b: bool)
        ensures
            b == self.available_spec(),
    {
        self.available
    }

    /// Queue one host event. A full queue drops the new event (the UI poll
    /// will catch up); returns whether it was kept.
    pub fn push(&mut self, event: TrayEvent) -> (kept: bool)
        requires
            old(self).wf(),
        ensures
            final(self).running_spec() == old(self).running_spec(),
            final(self).wf(),
            kept == (old(self).pending().len() < EVENT_CHANNEL_DEPTH),
            kept ==> final(self).pending() == old(self).pending().push(event),
            !kept ==> final(self).pending() == old(self).pending(),
            final(self).snapshot_spec() == old(self).snapshot_spec(),
            final(self).available_spec() == old(self).available_spec(),
            final(self).dirty_spec() == old(self).dirty_spec(),
    {
        if self.events.len() >= EVENT_CHANNEL_DEPTH {
            return false;
        }
        self.events.push(event);
        true
    }

    /// Drain host events for the UI poll, oldest first.
    pub fn take_events(&mut self) -> (events: Vec<TrayEvent>)
        requires
            old(self).wf(),
        ensures
            final(self).running_spec() == old(self).running_spec(),
            final(self).wf(),
            events@ == old(self).pending(),
            final(self).pending().len() == 0,
            final(self).snapshot_spec() == old(self).snapshot_spec(),
            final(self).available_spec() == old(self).available_spec(),
            final(self).dirty_spec() == old(self).dirty_spec(),
    {
        let mut taken: Vec<TrayEvent> = Vec::new();
        std::mem::swap(&mut taken, &mut self.events);
        taken
    }
}

/// Whether a tray host accepted the icon: false while the tray thread does
/// not run.
pub fn is_available(hub: &TrayHub) -> (b: bool)
    ensures
        b == (hub.running_spec() && hub.available_spec()),
{
    hub.running && hub.is_available()
}

/// Publish now-playing copy for the tooltip; returns whether it changed.
/// Before the tray thread runs this does nothing; an identical copy changes
/// nothing either.
pub fn publish(hub: &mut TrayHub, snapshot: TraySnapshot) -> (changed: bool)
    requires
        old(hub).wf(),
    ensures
        final(hub).wf(),
        final(hub).pending() == old(hub).pending(),
        final(hub).available_spec() == old(hub).available_spec(),
        final(hub).running_spec() == old(hub).running_spec(),
        changed == (old(hub).running_spec() && !(old(hub).snapshot_spec().title@ == snapshot.title@
            && old(hub).snapshot_spec().artist@ == snapshot.artist@
            && old(hub).snapshot_spec().playing == snapshot.playing)),
        changed ==> final(hub).snapshot_spec() == snapshot && final(hub).dirty_spec(),
        !changed ==> final(hub).snapshot_spec() == old(hub).snapshot_spec()
            && final(hub).dirty_spec() == old(hub).dirty_spec(),
{
    if !hub.running {
        return false;
    }
    hub.publish(snapshot)
}

/// Drain host events for the UI poll, oldest first; empty while the tray
/// thread does not run.
pub fn take_events(hub: &mut TrayHub) -> (events: Vec<TrayEvent>)
    requires
        old(hub).wf(),
    ensures
        final(hub).wf(),
        old(hub).running_spec() ==> events@ == old(hub).pending() && final(hub).pending().len() == 0,
        !old(hub).running_spec() ==> events@.len() == 0 && final(hub).pending() == old(hub).pending(),
        final(hub).snapshot_spec() == old(hub).snapshot_spec(),
        final(hub).dirty_spec() == old(hub).dirty_spec(),
        final(hub).available_spec() == old(hub).available_spec(),
        final(hub).running_spec() == old(hub).running_spec(),
{
    if !hub.running {
        return Vec::new();
    }
    hub.take_events()
}

} // verus!
