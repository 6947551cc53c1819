//! Playback vocabulary shared by the queue, the tray, and the bus surface:
//! engine states, repeat/`ReplayGain`/visualizer modes, engine events, and
//! the integer codes QML reads.

use vstd::prelude::*;

verus! {

/// Repeat behavior for the queue.
#[derive(Clone, Copy, Debug, PartialEq, Eq, Structural)]
pub enum RepeatMode {
    /// Play through once and stop.
    Off,
    /// Repeat the queue.
    All,
    /// Repeat the current track.
    One,
}

impl Default for RepeatMode {
    fn default() -> (m: Self)
        ensures
            m == RepeatMode::Off,
    {
        RepeatMode::Off
    }
}

/// Application-level playback states.
#[derive(Clone, Copy, Debug, PartialEq, Eq, Structural)]
pub enum PlaybackState {
    /// Nothing loaded, or stopped after playback.
    Stopped,
    /// Track accepted, pipeline prerolling.
    Loading,
    /// Audio flowing.
    Playing,
    /// Paused with position held.
    Paused,
}

impl Default for PlaybackState {
    fn default() -> (s: Self)
        ensures
            s == PlaybackState::Stopped,
    {
        PlaybackState::Stopped
    }
}

/// `ReplayGain` normalization mode. Missing tags stay at unity.
#[derive(Clone, Copy, Debug, PartialEq, Eq, Structural)]
pub enum ReplayGainMode {
    Off,
    Track,
    Album,
}

impl Default for ReplayGainMode {
    fn default() -> (m: Self)
        ensures
            m == ReplayGainMode::Off,
    {
        ReplayGainMode::Off
    }
}

/// What Now Playing draws behind the transport.
#[derive(Clone, Copy, Debug, PartialEq, Eq, Structural)]
pub enum VisualizerMode {
    Artwork,
    Spectrum,
    Waveform,
    Visualizer,
}

impl Default for VisualizerMode {
    fn default() -> (m: Self)
        ensures
            m == VisualizerMode::Artwork,
    {
        VisualizerMode::Artwork
    }
}

/// Discrete notifications from the player engine to the rest of the app.
#[derive(Clone, Debug)]
pub enum PlayerEvent {
    /// Pipeline state settled into a new application state.
    StateChanged(PlaybackState),
    /// Current track reached end-of-stream (queue advances on this).
    EndOfTrack,
    /// Unrecoverable pipeline failure with a human-readable message.
    PlaybackError(String),
    /// Track duration became known, in milliseconds.
    DurationChanged(u64),
}

/// Repeat code for QML: 0 (off), 1 (all), 2 (one).
pub open spec fn repeat_code(mode: RepeatMode) -> i32 {
    match mode {
        RepeatMode::Off => 0,
        RepeatMode::All => 1,
        RepeatMode::One => 2,
    }
}

/// Repeat mode as 0 (off), 1 (all), 2 (one) for QML.
pub fn repeat_to_int(mode: RepeatMode) -> (code: i32)
    ensures
        code == repeat_code(mode),
{
    match mode {
        RepeatMode::Off => 0,
        RepeatMode::All => 1,
        RepeatMode::One => 2,
    }
}

/// The mode after `mode` in the off → all → one → off cycle.
pub open spec fn next_repeat_spec(mode: RepeatMode) -> RepeatMode {
    match mode {
        RepeatMode::Off => RepeatMode::All,
        RepeatMode::All => RepeatMode::One,
        RepeatMode::One => RepeatMode::Off,
    }
}

/// Step the repeat cycle off → all → one → off.
pub fn next_repeat(mode: RepeatMode) -> (next: RepeatMode)
    ensures
        next == next_repeat_spec(mode),
        repeat_code(next) == (repeat_code(mode) + 1) % 3,
{
    match mode {
        RepeatMode::Off => RepeatMode::All,
        RepeatMode::All => RepeatMode::One,
        RepeatMode::One => RepeatMode::Off,
    }
}

/// State code for QML: 0 (stopped), 1 (loading), 2 (playing), 3 (paused).
pub open spec fn state_code(state: PlaybackState) -> i32 {
    match state {
        PlaybackState::Stopped => 0,
        PlaybackState::Loading => 1,
        PlaybackState::Playing => 2,
        PlaybackState::Paused => 3,
    }
}

/// Playback state as 0 (stopped), 1 (loading), 2 (playing), 3 (paused).
pub fn state_to_int(state: PlaybackState) -> (code: i32)
    ensures
        code == state_code(state),
{
    match state {
        PlaybackState::Stopped => 0,
        PlaybackState::Loading => 1,
        PlaybackState::Playing => 2,
        PlaybackState::Paused => 3,
    }
}

/// `ReplayGain` code for QML: 0 (off), 1 (track), 2 (album).
pub open spec fn replaygain_code(mode: ReplayGainMode) -> i32 {
    match mode {
        ReplayGainMode::Off => 0,
        ReplayGainMode::Track => 1,
        ReplayGainMode::Album => 2,
    }
}

pub fn replaygain_to_int(mode: ReplayGainMode) -> (code: i32)
    ensures
        code == replaygain_code(mode),
{
    match mode {
        ReplayGainMode::Off => 0,
        ReplayGainMode::Track => 1,
        ReplayGainMode::Album => 2,
    }
}

/// The mode a QML code selects: 1 track, 2 album, anything else off.
pub open spec fn replaygain_of_code(code: i32) -> ReplayGainMode {
    if code == 1 {
        ReplayGainMode::Track
    } else if code == 2 {
        ReplayGainMode::Album
    } else {
        ReplayGainMode::Off
    }
}

pub fn replaygain_from_int(code: i32) -> (mode: ReplayGainMode)
    ensures
        mode == replaygain_of_code(code),
{
    match code {
        1 => ReplayGainMode::Track,
        2 => ReplayGainMode::Album,
        _ => ReplayGainMode::Off,
    }
}

/// Visualizer code for QML: 0 artwork, 1 spectrum, 2 waveform, 3 visualizer.
pub open spec fn visualizer_code(mode: VisualizerMode) -> i32 {
    match mode {
        VisualizerMode::Artwork => 0,
        VisualizerMode::Spectrum => 1,
        VisualizerMode::Waveform => 2,
        VisualizerMode::Visualizer => 3,
    }
}

pub fn visualizer_to_int(mode: VisualizerMode) -> (code: i32)
    ensures
        code == visualizer_code(mode),
{
    match mode {
        VisualizerMode::Artwork => 0,
        VisualizerMode::Spectrum => 1,
        VisualizerMode::Waveform => 2,
        VisualizerMode::Visualizer => 3,
    }
}

/// The mode a QML code selects: 1 spectrum, 2 waveform, 3 visualizer,
/// anything else artwork.
pub open spec fn visualizer_of_code(code: i32) -> VisualizerMode {
    if code == 1 {
        VisualizerMode::Spectrum
    } else if code == 2 {
        VisualizerMode::Waveform
    } else if code == 3 {
        VisualizerMode::Visualizer
    } else {
        VisualizerMode::Artwork
    }
}

pub fn visualizer_from_int(code: i32) -> (mode: VisualizerMode)
    ensures
        mode == visualizer_of_code(code),
{
    match code {
        1 => VisualizerMode::Spectrum,
        2 => VisualizerMode::Waveform,
        3 => VisualizerMode::Visualizer,
        _ => VisualizerMode::Artwork,
    }
}

/// Saturating duration (in whole microseconds) to the MPRIS `Time` width.
pub fn duration_to_us(micros: u128) -> (us: i64)
    ensures
        us == if micros <= i64::MAX {
            micros as int
        } else {
            i64::MAX as int
        },
{
    if micros <= 0x7fff_ffff_ffff_ffffu128 {
        micros as i64
    } else {
        i64::MAX
    }
}

/// Saturating microseconds to whole milliseconds for engine seeks: negative
/// values count as zero, values past `i32::MAX` ms saturate.
pub fn us_to_ms_saturating(micros: i64) -> (ms: i32)
    ensures
        ms == if micros <= 0 {
            0
        } else if micros / 1000 <= i32::MAX {
            micros / 1000
        } else {
            i32::MAX as int
        },
{
    let clamped: i64 = if micros < 0 {
        0
    } else {
        micros
    };
    let ms = clamped / 1000;
    if ms <= 0x7fff_ffff {
        ms as i32
    } else {
        i32::MAX
    }
}

/// Three steps of the repeat cycle come back to where they started, and
/// each step lands on a different mode.
pub proof fn lemma_repeat_cycle_returns(mode: RepeatMode)
    ensures
        next_repeat_spec(next_repeat_spec(next_repeat_spec(mode))) == mode,
        next_repeat_spec(mode) != mode,
        next_repeat_spec(next_repeat_spec(mode)) != mode,
{
}

} // verus!
