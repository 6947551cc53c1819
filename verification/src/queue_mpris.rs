//! The bus side of the queue: what MPRIS clients are shown, and what their
//! commands ask of the engine. Every command goes through the same queue
//! decisions the panel uses, so the bus and the UI cannot diverge.

use vstd::prelude::*;
use crate::playback::{PlaybackState, RepeatMode, us_to_ms_saturating};
use crate::queue_model::{
    EngineView, MprisCapabilities, QueueModel, audio_recorded, current_art_spec, current_item_spec,
    mpris_seek_target, seek_target_ms,
};
use crate::text::{chars_of, decimal, push_all, push_decimal, signed_decimal, string_of, i64_to_string};

verus! {

/// Loop status as the bus names it.
#[derive(Clone, Copy, Debug, PartialEq, Eq, Structural)]
pub enum LoopStatus {
    /// No looping.
    Off,
    /// Repeat the current track.
    Track,
    /// Repeat the whole queue.
    Playlist,
}

/// The repeat mode a bus loop status stands for.
pub open spec fn unmap_loop_spec(status: LoopStatus) -> RepeatMode {
    match status {
        LoopStatus::Off => RepeatMode::Off,
        LoopStatus::Track => RepeatMode::One,
        LoopStatus::Playlist => RepeatMode::All,
    }
}

/// The bus loop status for a repeat mode.
pub open spec fn map_loop_spec(mode: RepeatMode) -> LoopStatus {
    match mode {
        RepeatMode::Off => LoopStatus::Off,
        RepeatMode::One => LoopStatus::Track,
        RepeatMode::All => LoopStatus::Playlist,
    }
}

/// Repeat mode for a loop status a client set.
pub fn unmap_loop(status: LoopStatus) -> (mode: RepeatMode)
    ensures
        mode == unmap_loop_spec(status),
{
    match status {
        LoopStatus::Off => RepeatMode::Off,
        LoopStatus::Track => RepeatMode::One,
        LoopStatus::Playlist => RepeatMode::All,
    }
}

/// Loop status shown for a repeat mode.
pub fn map_loop(mode: RepeatMode) -> (status: LoopStatus)
    ensures
        status == map_loop_spec(mode),
{
    match mode {
        RepeatMode::Off => LoopStatus::Off,
        RepeatMode::One => LoopStatus::Track,
        RepeatMode::All => LoopStatus::Playlist,
    }
}

/// Showing a repeat mode on the bus and reading it back gives the same
/// mode, and the other way round.
pub proof fn lemma_loop_round_trip(mode: RepeatMode, status: LoopStatus)
    ensures
        unmap_loop_spec(map_loop_spec(mode)) == mode,
        map_loop_spec(unmap_loop_spec(status)) == status,
{
}

/// One inbound bus command. Volume arrives as a percentage already.
#[derive(Clone, Copy, Debug, PartialEq, Eq, Structural)]
pub enum MprisCommand {
    Play,
    Pause,
    PlayPause,
    Stop,
    Next,
    Previous,
    /// Relative seek in microseconds.
    Seek { offset_us: i64 },
    /// Absolute seek in microseconds.
    SetPosition { position_us: i64 },
    /// Volume percentage the client asked for.
    SetVolume { pct: i32 },
    SetShuffle(bool),
    SetLoop(LoopStatus),
}

/// What a bus command asks of the engine.
#[derive(Clone, Copy, Debug, PartialEq, Eq, Structural)]
pub enum MprisAction {
    Play,
    Pause,
    Stop,
    Next,
    /// Step back, judged at this position (ms).
    Previous(u64),
    /// Seek to this position (ms).
    Seek(u64),
    /// Set this volume percentage.
    Volume(u8),
    /// Set shuffle.
    Shuffle(bool),
    /// Set the repeat mode.
    Repeat(RepeatMode),
    /// Nothing to ask (no engine).
    Nothing,
}

/// A track as the bus shows it.
#[derive(Clone, Debug)]
pub struct MprisTrack {
    /// Track-id suffix: `db<row id>`, or `q<queue index>` for entries that
    /// did not come from the index.
    pub id_suffix: String,
    pub uri: String,
    pub title: String,
    pub artist: Option<String>,
    pub album: Option<String>,
    /// Length in microseconds, when known.
    pub length_us: Option<i64>,
    /// Cover as a `file://` URL, when the cache has one.
    pub art_url: Option<String>,
}

/// Engine truth published to the bus.
#[derive(Clone, Debug)]
pub struct MprisSnapshot {
    pub status: PlaybackState,
    pub position_us: i64,
    pub volume_pct: i32,
    pub shuffle: bool,
    pub repeat: RepeatMode,
    pub track: Option<MprisTrack>,
    pub capabilities: MprisCapabilities,
}

/// The track-id suffix for an entry.
pub open spec fn track_suffix_spec(track_id: Option<i64>, cursor: Option<usize>) -> Seq<char> {
    match track_id {
        Some(id) => "db"@ + signed_decimal(id as int),
        None => "q"@ + decimal(
            match cursor {
                Some(c) => c as nat,
                None => 0,
            },
        ),
    }
}

/// Track-id suffix: the row id when the entry came from the index, else
/// its queue position.
pub fn track_suffix(track_id: Option<i64>, cursor: Option<usize>) -> (s: String)
    ensures
        s@ == track_suffix_spec(track_id, cursor),
{
    let mut out: Vec<char> = Vec::new();
    match track_id {
        Some(id) => {
            push_all(&mut out, chars_of("db").as_slice());
            push_all(&mut out, chars_of(i64_to_string(id).as_str()).as_slice());
        },
        None => {
            push_all(&mut out, chars_of("q").as_slice());
            let c: usize = match cursor {
                Some(c) => c,
                None => 0,
            };
            push_decimal(&mut out, c as u64);
        },
    }
    string_of(out.as_slice())
}

/// What the bus may ask with this engine and track length: next when the
/// queue has entries and either repeats or has one after the cursor;
/// previous with a cursor; play always; pause while playing or paused;
/// seek with a known, positive length.
pub open spec fn mpris_caps_spec(e: EngineView, length_us: Option<i64>) -> MprisCapabilities {
    MprisCapabilities {
        next: e.items@.len() > 0 && (e.repeat == RepeatMode::All || match e.cursor {
            Some(c) => c + 1 < e.items@.len(),
            None => false,
        }),
        previous: e.cursor is Some,
        play: true,
        pause: e.state == PlaybackState::Playing || e.state == PlaybackState::Paused,
        seek: match length_us {
            Some(l) => l > 0,
            None => false,
        },
    }
}

/// The snapshot shown without an engine: stopped, nothing loaded, nothing
/// allowed.
pub open spec fn idle_snapshot(s: MprisSnapshot) -> bool {
    &&& s.status == PlaybackState::Stopped
    &&& s.position_us == 0
    &&& s.volume_pct == 0
    &&& !s.shuffle
    &&& s.repeat == RepeatMode::Off
    &&& s.track is None
    &&& s.capabilities == MprisCapabilities {
        next: false,
        previous: false,
        play: false,
        pause: false,
        seek: false,
    }
}

fn copy_opt(s: &Option<String>) -> (r: Option<String>)
    ensures
        r == *s,
{
    match s {
        Some(t) => Some(t.clone()),
        None => None,
    }
}

impl QueueModel {
    /// Engine truth for the bus, given the engine's position and track
    /// length in microseconds. Honest when idle: stopped, no track, nothing
    /// allowed.
    pub fn mpris_snapshot(&self, position_us: i64, length_us: Option<i64>) -> (snap: MprisSnapshot)
        ensures
            match self.engine {
                None => idle_snapshot(snap),
                Some(e) => {
                    &&& snap.status == e.state
                    &&& snap.position_us == position_us
                    &&& snap.volume_pct == e.volume_pct
                    &&& snap.shuffle == e.shuffle
                    &&& snap.repeat == e.repeat
                    &&& snap.capabilities == mpris_caps_spec(e, length_us)
                    &&& match current_item_spec(e) {
                        None => snap.track is None,
                        Some(item) => snap.track matches Some(t) && t.id_suffix@ == track_suffix_spec(
                            item.track_id,
                            e.cursor,
                        ) && t.uri == item.uri && t.title == item.title && t.artist == item.artist
                            && t.album == item.album && t.length_us == length_us && match t.art_url {
                            Some(u) => current_art_spec(self.engine, self.art.answers()) == Some(u@),
                            None => current_art_spec(self.engine, self.art.answers()) is None,
                        },
                    }
                },
            },
    {
        let e = match &self.engine {
            None => {
                return MprisSnapshot {
                    status: PlaybackState::Stopped,
                    position_us: 0,
                    volume_pct: 0,
                    shuffle: false,
                    repeat: RepeatMode::Off,
                    track: None,
                    capabilities: MprisCapabilities {
                        next: false,
                        previous: false,
                        play: false,
                        pause: false,
                        seek: false,
                    },
                };
            },
            Some(e) => e,
        };
        let caps = self.mpris_capabilities();
        let seek = match length_us {
            Some(l) => l > 0,
            None => false,
        };
        let track = match e.cursor {
            Some(c) => if c < e.items.len() {
                let item = &e.items[c];
                Some(
                    MprisTrack {
                        id_suffix: track_suffix(item.track_id, e.cursor),
                        uri: item.uri.clone(),
                        title: item.title.clone(),
                        artist: copy_opt(&item.artist),
                        album: copy_opt(&item.album),
                        length_us,
                        art_url: self.current_art_link(),
                    },
                )
            } else {
                None
            },
            None => None,
        };
        MprisSnapshot {
            status: e.state,
            position_us,
            volume_pct: e.volume_pct,
            shuffle: e.shuffle,
            repeat: e.repeat,
            track,
            capabilities: MprisCapabilities {
                next: caps.next,
                previous: caps.previous,
                play: caps.play,
                pause: caps.pause,
                seek,
            },
        }
    }

    /// Carry out one bus command through the panel's own decisions, given
    /// the engine's position in microseconds; returns what to ask of the
    /// engine. Shuffle, loop and volume changes land in the engine view and
    /// the settings copy right away.
    pub fn apply_mpris_command(&mut self, command: MprisCommand, position_us: i64) -> (action:
        MprisAction)
        ensures
            match command {
                MprisCommand::Play => action == MprisAction::Play,
                MprisCommand::Pause => action == MprisAction::Pause,
                MprisCommand::PlayPause => action == if (old(self).engine matches Some(e)
                    && e.state == PlaybackState::Playing) {
                    MprisAction::Pause
                } else {
                    MprisAction::Play
                },
                MprisCommand::Stop => action == MprisAction::Stop,
                MprisCommand::Next => action == MprisAction::Next,
                MprisCommand::Previous => action == MprisAction::Previous(
                    if position_us <= 0 {
                        0u64
                    } else if position_us / 1000 <= i32::MAX {
                        (position_us / 1000) as u64
                    } else {
                        i32::MAX as u64
                    },
                ),
                MprisCommand::Seek { offset_us } => action == if old(self).engine is None {
                    MprisAction::Nothing
                } else {
                    MprisAction::Seek(seek_target_ms(position_us as int, offset_us as int) as u64)
                },
                MprisCommand::SetPosition { position_us: p } => action == if old(self).engine is None {
                    MprisAction::Nothing
                } else {
                    MprisAction::Seek(
                        if p <= 0 {
                            0u64
                        } else if p / 1000 <= i32::MAX {
                            (p / 1000) as u64
                        } else {
                            i32::MAX as u64
                        },
                    )
                },
                MprisCommand::SetVolume { pct } => action == if old(self).engine is None {
                    MprisAction::Nothing
                } else {
                    MprisAction::Volume(
                        if pct < 0 {
                            0u8
                        } else if pct > 100 {
                            100u8
                        } else {
                            pct as u8
                        },
                    )
                },
                MprisCommand::SetShuffle(b) => action == if old(self).engine is None {
                    MprisAction::Nothing
                } else {
                    MprisAction::Shuffle(b)
                },
                MprisCommand::SetLoop(s) => action == if old(self).engine is None {
                    MprisAction::Nothing
                } else {
                    MprisAction::Repeat(unmap_loop_spec(s))
                },
            },
            match command {
                MprisCommand::SetShuffle(b) => match old(self).engine {
                    Some(e) => final(self).engine matches Some(f) && f.shuffle == b && f.repeat
                        == e.repeat && f.items == e.items && f.cursor == e.cursor && audio_recorded(
                        old(self).settings,
                        final(self).settings,
                        f,
                    ),
                    None => final(self).engine is None && final(self).settings == old(
                        self,
                    ).settings,
                },
                MprisCommand::SetLoop(s) => match old(self).engine {
                    Some(e) => final(self).engine matches Some(f) && f.repeat == unmap_loop_spec(s)
                        && f.shuffle == e.shuffle && f.items == e.items && f.cursor == e.cursor
                        && audio_recorded(old(self).settings, final(self).settings, f),
                    None => final(self).engine is None && final(self).settings == old(
                        self,
                    ).settings,
                },
                MprisCommand::SetVolume { pct } => match old(self).engine {
                    Some(e) => final(self).engine matches Some(f) && f.volume_pct == (if pct < 0 {
                        0
                    } else if pct > 100 {
                        100
                    } else {
                        pct
                    }) && f.muted == e.muted && f.items == e.items && f.cursor == e.cursor
                        && audio_recorded(old(self).settings, final(self).settings, f),
                    None => final(self).engine is None && final(self).settings == old(
                        self,
                    ).settings,
                },
                _ => final(self).engine == old(self).engine && final(self).settings == old(
                    self,
                ).settings,
            },
            final(self).rows == old(self).rows,
    {
        match command {
            MprisCommand::Play => MprisAction::Play,
            MprisCommand::Pause => MprisAction::Pause,
            MprisCommand::PlayPause => if self.play_pause() {
                MprisAction::Pause
            } else {
                MprisAction::Play
            },
            MprisCommand::Stop => MprisAction::Stop,
            MprisCommand::Next => MprisAction::Next,
            MprisCommand::Previous => MprisAction::Previous(
                QueueModel::previous_track(us_to_ms_saturating(position_us)),
            ),
            MprisCommand::Seek { offset_us } => match self.seek_ms(
                mpris_seek_target(position_us, offset_us),
            ) {
                Some(t) => MprisAction::Seek(t),
                None => MprisAction::Nothing,
            },
            MprisCommand::SetPosition { position_us: p } => match self.seek_ms(
                us_to_ms_saturating(p),
            ) {
                Some(t) => MprisAction::Seek(t),
                None => MprisAction::Nothing,
            },
            MprisCommand::SetVolume { pct } => match self.set_volume_pct(pct) {
                Some(v) => MprisAction::Volume(v),
                None => MprisAction::Nothing,
            },
            MprisCommand::SetShuffle(b) => {
                let mut engine = match self.engine.take() {
                    Some(e) => e,
                    None => return MprisAction::Nothing,
                };
                engine.shuffle = b;
                self.engine = Some(engine);
                self.write_audio_config();
                MprisAction::Shuffle(b)
            },
            MprisCommand::SetLoop(s) => {
                let mut engine = match self.engine.take() {
                    Some(e) => e,
                    None => return MprisAction::Nothing,
                };
                let mode = unmap_loop(s);
                engine.repeat = mode;
                self.engine = Some(engine);
                self.write_audio_config();
                MprisAction::Repeat(mode)
            },
        }
    }
}

} // verus!
