//! Persistent application settings: the schema sections, the rules that
//! clamp what deserialization alone cannot, and the paths settings live at.
//!
//! Reading and writing `config.toml` is the shell's job; every decision on
//! the values lives here.

use vstd::prelude::*;
use crate::playback::{RepeatMode, ReplayGainMode, VisualizerMode};
use crate::text::{
    ascii_alnum_char, ascii_lower, ascii_lower_char, chars_of, eq_ignore_ascii_case,
    is_ascii_alnum, push_all, same_chars, same_ignoring_ascii_case, string_of, trim, trimmed,
};

verus! {

/// Playback behavior settings.
#[derive(Clone, Debug)]
pub struct PlaybackConfig {
    /// Whether output starts muted.
    pub muted: bool,
    /// Whether the queue shuffles.
    pub shuffle: bool,
    /// Queue repeat behavior.
    pub repeat_mode: RepeatMode,
    /// Last playing URI (`file://…`). Absent means nothing to restore.
    pub last_uri: Option<String>,
    /// Last playback position in milliseconds (best-effort).
    pub last_position_ms: u64,
    /// `ReplayGain` mode. Missing tags stay at unity.
    pub replaygain: ReplayGainMode,
    /// Fade length in seconds on the about-to-finish handoff (0–12).
    pub crossfade_secs: u8,
    /// Audio sink id. Empty means the system default.
    pub output_device: String,
    /// Whether the ten-band equalizer is applied.
    pub eq_enabled: bool,
    /// Named equalizer preset (`custom` when the bands match none).
    pub eq_preset: String,
}

impl Default for PlaybackConfig {
    fn default() -> (c: Self)
        ensures
            !c.muted,
            !c.shuffle,
            c.repeat_mode == RepeatMode::Off,
            c.last_uri is None,
            c.last_position_ms == 0,
            c.replaygain == ReplayGainMode::Off,
            c.crossfade_secs == 0,
            c.output_device@.len() == 0,
            !c.eq_enabled,
            c.eq_preset@.len() == 0,
    {
        PlaybackConfig {
            muted: false,
            shuffle: false,
            repeat_mode: RepeatMode::Off,
            last_uri: None,
            last_position_ms: 0,
            replaygain: ReplayGainMode::Off,
            crossfade_secs: 0,
            output_device: String::new(),
            eq_enabled: false,
            eq_preset: String::new(),
        }
    }
}

/// Appearance and accessibility settings.
#[derive(Clone, Debug)]
pub struct AppearanceConfig {
    /// Honor the OS reduce-motion preference (disables crossfades).
    pub reduce_motion: bool,
    /// Fall back to opaque surfaces (disables blur/transparency).
    pub reduce_transparency: bool,
    /// What Now Playing draws.
    pub visualizer: VisualizerMode,
    /// Visualizer frame rate.
    pub visualizer_fps: u8,
}

impl Default for AppearanceConfig {
    fn default() -> (c: Self)
        ensures
            !c.reduce_motion,
            !c.reduce_transparency,
            c.visualizer == VisualizerMode::Artwork,
            c.visualizer_fps == 0,
    {
        AppearanceConfig {
            reduce_motion: false,
            reduce_transparency: false,
            visualizer: VisualizerMode::Artwork,
            visualizer_fps: 0,
        }
    }
}

/// Desktop toast preferences; every switch starts on.
#[derive(Clone, Debug)]
pub struct NotifyConfig {
    /// Master switch.
    pub enabled: bool,
    /// Toast when the track changes while the window is unfocused.
    pub track_change: bool,
    /// Toast playback failures.
    pub playback_errors: bool,
}

impl Default for NotifyConfig {
    fn default() -> (c: Self)
        ensures
            c.enabled,
            c.track_change,
            c.playback_errors,
    {
        NotifyConfig { enabled: true, track_change: true, playback_errors: true }
    }
}

/// Window and desktop-shell settings.
#[derive(Clone, Debug, PartialEq, Eq, Structural)]
pub struct WindowConfig {
    /// Hide to the tray instead of quitting when the window closes.
    pub close_to_tray: bool,
    /// Last window width in pixels. `0` means never saved.
    pub width: u32,
    /// Last window height in pixels. `0` means never saved.
    pub height: u32,
    /// Last window x, when the session saved a position.
    pub x: Option<i32>,
    /// Last window y, when the session saved a position.
    pub y: Option<i32>,
}

impl Default for WindowConfig {
    fn default() -> (c: Self)
        ensures
            c.close_to_tray,
            c.width == 0,
            c.height == 0,
            c.x is None,
            c.y is None,
    {
        WindowConfig { close_to_tray: true, width: 0, height: 0, x: None, y: None }
    }
}

/// Shell minimum width. Saved sizes clamp up to this.
pub const MIN_WIDTH: u32 = 960;

/// Shell minimum height. Saved sizes clamp up to this.
pub const MIN_HEIGHT: u32 = 640;

/// First-run default width.
pub const DEFAULT_WIDTH: u32 = 1280;

/// First-run default height.
pub const DEFAULT_HEIGHT: u32 = 800;

/// A saved extent restored: the default when never saved, otherwise at
/// least the minimum.
pub open spec fn restored_extent(saved: u32, default: u32, minimum: u32) -> u32 {
    if saved == 0 {
        default
    } else if saved < minimum {
        minimum
    } else {
        saved
    }
}

impl WindowConfig {
    /// Width to restore: default when unset, otherwise at least the minimum.
    pub fn restored_width(&self) -> (w: u32)
        ensures
            w == restored_extent(self.width, DEFAULT_WIDTH, MIN_WIDTH),
    {
        if self.width == 0 {
            DEFAULT_WIDTH
        } else if self.width < MIN_WIDTH {
            MIN_WIDTH
        } else {
            self.width
        }
    }

    /// Height to restore: default when unset, otherwise at least the minimum.
    pub fn restored_height(&self) -> (h: u32)
        ensures
            h == restored_extent(self.height, DEFAULT_HEIGHT, MIN_HEIGHT),
    {
        if self.height == 0 {
            DEFAULT_HEIGHT
        } else if self.height < MIN_HEIGHT {
            MIN_HEIGHT
        } else {
            self.height
        }
    }
}

/// Last-used browse prefs (library tab and sort).
#[derive(Clone, Debug)]
pub struct ViewConfig {
    /// Last library tab (`songs` / `albums` / `artists` / `folders`).
    pub library_tab: String,
    /// Songs-tab sort key.
    pub songs_sort: String,
    /// Songs-tab direction (`asc` / `desc`); empty uses the key's default.
    pub songs_sort_dir: String,
    /// Albums-tab sort key.
    pub albums_sort: String,
    /// Albums-tab direction; empty uses the key's default.
    pub albums_sort_dir: String,
    /// Artists-tab sort key.
    pub artists_sort: String,
    /// Artists-tab direction; empty uses the key's default.
    pub artists_sort_dir: String,
    /// Recent search queries, newest first.
    pub recent_searches: Vec<String>,
}

impl Default for ViewConfig {
    fn default() -> (c: Self)
        ensures
            c.library_tab@.len() == 0,
            c.songs_sort@.len() == 0,
            c.songs_sort_dir@.len() == 0,
            c.albums_sort@.len() == 0,
            c.albums_sort_dir@.len() == 0,
            c.artists_sort@.len() == 0,
            c.artists_sort_dir@.len() == 0,
            c.recent_searches@.len() == 0,
    {
        ViewConfig {
            library_tab: String::new(),
            songs_sort: String::new(),
            songs_sort_dir: String::new(),
            albums_sort: String::new(),
            albums_sort_dir: String::new(),
            artists_sort: String::new(),
            artists_sort_dir: String::new(),
            recent_searches: Vec::new(),
        }
    }
}

/// Resolved sort direction: an explicit `asc`/`desc` wins; otherwise date
/// and artist track-count keys keep newest/most first.
pub open spec fn sort_dir_is_desc_spec(sort_key: Seq<char>, stored: Seq<char>) -> bool {
    if stored == "asc"@ {
        false
    } else if stored == "desc"@ {
        true
    } else {
        sort_key == "date"@ || sort_key == "songs"@
    }
}

/// A stored `asc` or `desc` is obeyed whatever the key; with anything else
/// stored, the date key (newest first) and the artists' track-count key
/// `songs` (most first) sort descending and every other key ascending.
pub proof fn lemma_sort_direction_defaults(sort_key: Seq<char>, stored: Seq<char>)
    ensures
        sort_dir_is_desc_spec(sort_key, "asc"@) == false,
        sort_dir_is_desc_spec(sort_key, "desc"@) == true,
        stored != "asc"@ && stored != "desc"@ ==> (sort_dir_is_desc_spec(sort_key, stored) <==> (
        sort_key == "date"@ || sort_key == "songs"@)),
{
    reveal_strlit("asc");
    reveal_strlit("desc");
    assert("desc"@.len() != "asc"@.len());
}

/// Resolve a stored sort direction. Empty or unknown values keep date and
/// artist track-count newest/most-first so legacy configs do not flip.
pub fn sort_dir_is_desc(sort_key: &str, stored: &str) -> (desc: bool)
    ensures
        desc == sort_dir_is_desc_spec(sort_key@, stored@),
{
    let stored = chars_of(stored);
    let key = chars_of(sort_key);
    if same_chars(stored.as_slice(), chars_of("asc").as_slice()) {
        false
    } else if same_chars(stored.as_slice(), chars_of("desc").as_slice()) {
        true
    } else {
        same_chars(key.as_slice(), chars_of("date").as_slice()) || same_chars(
            key.as_slice(),
            chars_of("songs").as_slice(),
        )
    }
}

/// Named library profile (own index + roots). The empty id is the default.
#[derive(Clone, Debug)]
pub struct LibraryProfile {
    /// Stable id (a slug). Used in the data-dir path.
    pub id: String,
    /// Display name.
    pub name: String,
    /// Watched folders for this profile.
    pub library_roots: Vec<String>,
}

/// Opt-in online enrichment. Default off.
#[derive(Clone, Debug)]
pub struct EnrichmentConfig {
    /// `MusicBrainz` / Cover Art Archive lookups; only fills missing tags/art.
    pub musicbrainz: bool,
}

impl Default for EnrichmentConfig {
    fn default() -> (c: Self)
        ensures
            !c.musicbrainz,
    {
        EnrichmentConfig { musicbrainz: false }
    }
}

/// Whether the enrichment section is at its default (and left out on save).
pub fn enrichment_is_off(config: &EnrichmentConfig) -> (off: bool)
    ensures
        off == !config.musicbrainz,
{
    !config.musicbrainz
}

/// Application settings, every section with its default. The output volume
/// is a float and stays with the shell's copy.
#[derive(Clone, Debug)]
pub struct TunexConfig {
    /// Watched music folders of the default profile.
    pub library_roots: Vec<String>,
    /// Playback behavior.
    pub playback: PlaybackConfig,
    /// Appearance and accessibility.
    pub appearance: AppearanceConfig,
    /// Window close, tray, and geometry.
    pub window: WindowConfig,
    /// Last library tab and sort.
    pub view: ViewConfig,
    /// Active library profile id. Empty means the default.
    pub active_profile: String,
    /// Extra named profiles.
    pub profiles: Vec<LibraryProfile>,
    /// Opt-in online enrichment.
    pub enrichment: EnrichmentConfig,
    /// Desktop toast preferences.
    pub notify: NotifyConfig,
}

impl Default for TunexConfig {
    fn default() -> (c: Self)
        ensures
            c.library_roots@.len() == 0,
            c.active_profile@.len() == 0,
            c.profiles@.len() == 0,
            c.window.close_to_tray,
            c.window.width == 0,
            c.window.height == 0,
            c.window.x is None,
            c.window.y is None,
            !c.enrichment.musicbrainz,
            c.notify.enabled && c.notify.track_change && c.notify.playback_errors,
            c.playback.crossfade_secs == 0,
            c.playback.replaygain == ReplayGainMode::Off,
            c.playback.repeat_mode == RepeatMode::Off,
            !c.playback.shuffle && !c.playback.muted,
            c.playback.output_device@.len() == 0,
            c.playback.last_uri is None,
            !c.appearance.reduce_motion && !c.appearance.reduce_transparency,
            c.view.recent_searches@.len() == 0,
    {
        TunexConfig {
            library_roots: Vec::new(),
            playback: PlaybackConfig::default(),
            appearance: AppearanceConfig::default(),
            window: WindowConfig::default(),
            view: ViewConfig::default(),
            active_profile: String::new(),
            profiles: Vec::new(),
            enrichment: EnrichmentConfig::default(),
            notify: NotifyConfig::default(),
        }
    }
}

/// Longest crossfade the engine accepts, in seconds.
pub const MAX_CROSSFADE_SECS: u8 = 12;

/// A saved extent after loading: unset stays unset, anything else is at
/// least the minimum.
pub open spec fn normalized_extent(saved: u32, minimum: u32) -> u32 {
    if saved > 0 && saved < minimum {
        minimum
    } else {
        saved
    }
}

impl TunexConfig {
    /// Clamp invariants that deserialization alone cannot express: the
    /// crossfade to 12 s and saved window extents up to the shell minimum.
    pub fn normalize(&mut self)
        ensures
            final(self).playback.crossfade_secs == if old(self).playback.crossfade_secs
                > MAX_CROSSFADE_SECS {
                MAX_CROSSFADE_SECS
            } else {
                old(self).playback.crossfade_secs
            },
            final(self).window.width == normalized_extent(old(self).window.width, MIN_WIDTH),
            final(self).window.height == normalized_extent(old(self).window.height, MIN_HEIGHT),
            final(self).window.close_to_tray == old(self).window.close_to_tray,
            final(self).window.x == old(self).window.x,
            final(self).window.y == old(self).window.y,
            final(self).playback.repeat_mode == old(self).playback.repeat_mode,
            final(self).playback.shuffle == old(self).playback.shuffle,
            final(self).playback.muted == old(self).playback.muted,
            final(self).playback.replaygain == old(self).playback.replaygain,
            final(self).playback.last_uri == old(self).playback.last_uri,
            final(self).playback.last_position_ms == old(self).playback.last_position_ms,
            final(self).playback.output_device == old(self).playback.output_device,
            final(self).playback.eq_enabled == old(self).playback.eq_enabled,
            final(self).playback.eq_preset == old(self).playback.eq_preset,
            final(self).library_roots == old(self).library_roots,
            final(self).appearance == old(self).appearance,
            final(self).view == old(self).view,
            final(self).active_profile == old(self).active_profile,
            final(self).profiles == old(self).profiles,
            final(self).enrichment == old(self).enrichment,
            final(self).notify == old(self).notify,
    {
        if self.playback.crossfade_secs > MAX_CROSSFADE_SECS {
            self.playback.crossfade_secs = MAX_CROSSFADE_SECS;
        }
        if self.window.width > 0 && self.window.width < MIN_WIDTH {
            self.window.width = MIN_WIDTH;
        }
        if self.window.height > 0 && self.window.height < MIN_HEIGHT {
            self.window.height = MIN_HEIGHT;
        }
    }
}

/// `base` joined with a relative or absolute `leaf` the way `Path::join`
/// does on Unix: an absolute leaf replaces the base, an empty base gives
/// the leaf, and exactly one separator sits between the two.
pub open spec fn join_spec(base: Seq<char>, leaf: Seq<char>) -> Seq<char> {
    if leaf.len() > 0 && leaf[0] == '/' {
        leaf
    } else if base.len() == 0 {
        leaf
    } else if base.last() == '/' {
        base + leaf
    } else {
        base + "/"@ + leaf
    }
}

/// Join a path and a leaf (`Path::join` on Unix).
pub fn join_path(base: &str, leaf: &str) -> (p: String)
    ensures
        p@ == join_spec(base@, leaf@),
{
    let b = chars_of(base);
    let l = chars_of(leaf);
    let mut out: Vec<char> = Vec::new();
    if l.len() > 0 && l[0] == '/' {
        push_all(&mut out, l.as_slice());
    } else if b.len() == 0 {
        push_all(&mut out, l.as_slice());
    } else if b[b.len() - 1] == '/' {
        push_all(&mut out, b.as_slice());
        push_all(&mut out, l.as_slice());
    } else {
        push_all(&mut out, b.as_slice());
        push_all(&mut out, chars_of("/").as_slice());
        push_all(&mut out, l.as_slice());
    }
    proof {
        if !(l@.len() > 0 && l@[0] == '/') && b@.len() > 0 {
            assert(b@.last() == b@[b@.len() - 1]);
        }
    }
    assert(out@ =~= join_spec(base@, leaf@));
    string_of(out.as_slice())
}

/// Where a per-user directory lives: the XDG variable when set, else the
/// home-relative fallback, else the fallback relative to the working
/// directory (service and CI contexts stay local); the `tunex` leaf last.
pub open spec fn user_dir_spec(
    xdg: Option<Seq<char>>,
    home: Option<Seq<char>>,
    home_relative: Seq<char>,
) -> Seq<char> {
    let base = match xdg {
        Some(x) => x,
        None => match home {
            Some(h) => join_spec(h, home_relative),
            None => home_relative,
        },
    };
    join_spec(base, "tunex"@)
}

/// An optional text as plain characters.
pub open spec fn opt_chars(s: Option<&str>) -> Option<Seq<char>> {
    match s {
        Some(t) => Some(t@),
        None => None,
    }
}

/// The user configuration directory from `$XDG_CONFIG_HOME` and `$HOME`.
pub fn config_dir(xdg_config_home: Option<&str>, home: Option<&str>) -> (dir: String)
    ensures
        dir@ == user_dir_spec(opt_chars(xdg_config_home), opt_chars(home), ".config"@),
{
    let base = match xdg_config_home {
        Some(x) => string_of(chars_of(x).as_slice()),
        None => match home {
            Some(h) => join_path(h, ".config"),
            None => string_of(chars_of(".config").as_slice()),
        },
    };
    join_path(base.as_str(), "tunex")
}

/// The user data directory from `$XDG_DATA_HOME` and `$HOME`; the library
/// index lives here, so a restart reopens the same database.
pub fn data_dir(xdg_data_home: Option<&str>, home: Option<&str>) -> (dir: String)
    ensures
        dir@ == user_dir_spec(opt_chars(xdg_data_home), opt_chars(home), ".local/share"@),
{
    let base = match xdg_data_home {
        Some(x) => string_of(chars_of(x).as_slice()),
        None => match home {
            Some(h) => join_path(h, ".local/share"),
            None => string_of(chars_of(".local/share").as_slice()),
        },
    };
    join_path(base.as_str(), "tunex")
}

/// The user cache directory from `$XDG_CACHE_HOME` and `$HOME`; artwork
/// thumbnails are kept under it.
pub fn cache_dir(xdg_cache_home: Option<&str>, home: Option<&str>) -> (dir: String)
    ensures
        dir@ == user_dir_spec(opt_chars(xdg_cache_home), opt_chars(home), ".cache"@),
{
    let base = match xdg_cache_home {
        Some(x) => string_of(chars_of(x).as_slice()),
        None => match home {
            Some(h) => join_path(h, ".cache"),
            None => string_of(chars_of(".cache").as_slice()),
        },
    };
    join_path(base.as_str(), "tunex")
}

/// Full path of the settings file inside the configuration directory.
pub fn config_file(config_dir: &str) -> (path: String)
    ensures
        path@ == join_spec(config_dir@, "config.toml"@),
{
    join_path(config_dir, "config.toml")
}

/// A profile id reduced to a slug: ASCII letters lowercased, digits kept,
/// every other character a hyphen.
pub open spec fn slug_chars(id: Seq<char>) -> Seq<char> {
    id.map_values(|c: char| if is_ascii_alnum(c) {
        ascii_lower(c)
    } else {
        '-'
    })
}

/// `s` without leading hyphens.
pub open spec fn strip_leading_hyphens(s: Seq<char>) -> Seq<char>
    decreases s.len(),
{
    if s.len() > 0 && s[0] == '-' {
        strip_leading_hyphens(s.drop_first())
    } else {
        s
    }
}

/// `s` without trailing hyphens.
pub open spec fn strip_trailing_hyphens(s: Seq<char>) -> Seq<char>
    decreases s.len(),
{
    if s.len() > 0 && s.last() == '-' {
        strip_trailing_hyphens(s.drop_last())
    } else {
        s
    }
}

/// Longest slug kept, in characters.
pub const PROFILE_SLUG_MAX: usize = 40;

/// The sanitized id: the slug with hyphens trimmed from both ends, at most
/// 40 characters, and `library` when nothing is left.
pub open spec fn sanitize_profile_id_spec(id: Seq<char>) -> Seq<char> {
    let core = strip_trailing_hyphens(strip_leading_hyphens(slug_chars(id)));
    if core.len() == 0 {
        "library"@
    } else if core.len() > PROFILE_SLUG_MAX {
        core.take(PROFILE_SLUG_MAX as int)
    } else {
        core
    }
}

proof fn lemma_strip_leading_step(s: Seq<char>, a: int)
    requires
        0 <= a < s.len(),
        s[a] == '-',
    ensures
        strip_leading_hyphens(s.subrange(a, s.len() as int)) == strip_leading_hyphens(
            s.subrange(a + 1, s.len() as int),
        ),
{
    assert(s.subrange(a, s.len() as int).drop_first() =~= s.subrange(a + 1, s.len() as int));
}

proof fn lemma_strip_trailing_step(s: Seq<char>, b: int)
    requires
        0 < b <= s.len(),
        s[b - 1] == '-',
    ensures
        strip_trailing_hyphens(s.subrange(0, b)) == strip_trailing_hyphens(s.subrange(0, b - 1)),
{
    assert(s.subrange(0, b).drop_last() =~= s.subrange(0, b - 1));
}

/// A character a profile slug may hold: lower-case ASCII letter, digit,
/// or hyphen.
pub open spec fn is_slug_char(c: char) -> bool {
    ('a' <= c <= 'z') || ('0' <= c <= '9') || c == '-'
}

/// Non-empty, made of slug characters, not starting with a hyphen.
pub open spec fn slug_shaped(s: Seq<char>) -> bool {
    &&& s.len() > 0
    &&& forall|i: int| 0 <= i < s.len() ==> is_slug_char(#[trigger] s[i])
    &&& s[0] != '-'
}

proof fn lemma_lower_slug_char(c: char)
    requires
        is_ascii_alnum(c),
    ensures
        is_slug_char(ascii_lower(c)),
        ascii_lower(c) != '-',
{
    if 'A' <= c <= 'Z' {
        let n: u32 = ((c as u32) + 32) as u32;
        assert(97 <= n <= 122);
        assert(ascii_lower(c) == n as char);
    }
}

proof fn lemma_slug_chars_valid(id: Seq<char>)
    ensures
        forall|i: int| 0 <= i < slug_chars(id).len() ==> is_slug_char(#[trigger] slug_chars(id)[i]),
        slug_chars(id).len() == id.len(),
{
    assert forall|i: int| 0 <= i < slug_chars(id).len() implies is_slug_char(
        #[trigger] slug_chars(id)[i],
    ) by {
        if is_ascii_alnum(id[i]) {
            lemma_lower_slug_char(id[i]);
        }
    }
}

proof fn lemma_strip_leading_suffix(s: Seq<char>)
    ensures
        exists|a: int| 0 <= a <= s.len() && strip_leading_hyphens(s) == s.subrange(a, s.len() as int),
        strip_leading_hyphens(s).len() > 0 ==> strip_leading_hyphens(s)[0] != '-',
    decreases s.len(),
{
    if s.len() > 0 && s[0] == '-' {
        lemma_strip_leading_suffix(s.drop_first());
        let a = choose|a: int|
            0 <= a <= s.drop_first().len() && strip_leading_hyphens(s.drop_first())
                == s.drop_first().subrange(a, s.drop_first().len() as int);
        assert(s.drop_first().subrange(a, s.drop_first().len() as int) =~= s.subrange(
            a + 1,
            s.len() as int,
        ));
    } else {
        assert(s.subrange(0, s.len() as int) =~= s);
    }
}

proof fn lemma_strip_trailing_prefix(s: Seq<char>)
    ensures
        exists|b: int| 0 <= b <= s.len() && strip_trailing_hyphens(s) == s.subrange(0, b),
        strip_trailing_hyphens(s).len() > 0 ==> strip_trailing_hyphens(s).last() != '-',
    decreases s.len(),
{
    if s.len() > 0 && s.last() == '-' {
        lemma_strip_trailing_prefix(s.drop_last());
        let b = choose|b: int|
            0 <= b <= s.drop_last().len() && strip_trailing_hyphens(s.drop_last())
                == s.drop_last().subrange(0, b);
        assert(s.drop_last().subrange(0, b) =~= s.subrange(0, b));
    } else {
        assert(s.subrange(0, s.len() as int) =~= s);
    }
}

/// Every sanitized id is slug-shaped and at most 40 characters long.
pub proof fn lemma_sanitized_shape(id: Seq<char>)
    ensures
        slug_shaped(sanitize_profile_id_spec(id)),
        sanitize_profile_id_spec(id).len() <= PROFILE_SLUG_MAX,
{
    let sl = slug_chars(id);
    lemma_slug_chars_valid(id);
    let lead = strip_leading_hyphens(sl);
    lemma_strip_leading_suffix(sl);
    let a = choose|a: int| 0 <= a <= sl.len() && lead == sl.subrange(a, sl.len() as int);
    let core = strip_trailing_hyphens(lead);
    lemma_strip_trailing_prefix(lead);
    let b = choose|b: int| 0 <= b <= lead.len() && core == lead.subrange(0, b);
    reveal_strlit("library");
    if core.len() > 0 {
        assert(core[0] == lead[0]);
        assert forall|i: int| 0 <= i < core.len() implies is_slug_char(#[trigger] core[i]) by {
            assert(core[i] == lead[i]);
            assert(lead[i] == sl[a + i]);
        }
        if core.len() > PROFILE_SLUG_MAX {
            let t = core.take(PROFILE_SLUG_MAX as int);
            assert forall|i: int| 0 <= i < t.len() implies is_slug_char(#[trigger] t[i]) by {
                assert(t[i] == core[i]);
            }
        }
    }
}

/// A slug-shaped id of at most 40 characters that does not end with a
/// hyphen sanitizes to itself.
pub proof fn lemma_sanitize_fixes_clean_ids(s: Seq<char>)
    requires
        slug_shaped(s),
        s.last() != '-',
        s.len() <= PROFILE_SLUG_MAX,
    ensures
        sanitize_profile_id_spec(s) == s,
{
    assert forall|i: int| 0 <= i < s.len() implies #[trigger] slug_chars(s)[i] == s[i] by {
        assert(is_slug_char(s[i]));
    }
    assert(slug_chars(s) =~= s);
    assert(strip_leading_hyphens(s) == s);
    assert(strip_trailing_hyphens(s) == s);
}

/// Slug a profile id: lowercase ASCII letters, digits, and hyphen.
pub fn sanitize_profile_id(id: &str) -> (slug: String)
    ensures
        slug@ == sanitize_profile_id_spec(id@),
{
    let src = chars_of(id);
    let mut s: Vec<char> = Vec::new();
    let mut i: usize = 0;
    while i < src.len()
        invariant
            i <= src@.len(),
            src@ == id@,
            s@ == slug_chars(src@.take(i as int)),
        decreases src@.len() - i,
    {
        let c = src[i];
        let mapped = if ascii_alnum_char(c) {
            ascii_lower_char(c)
        } else {
            '-'
        };
        s.push(mapped);
        assert(s@ =~= slug_chars(src@.take(i + 1)));
        i = i + 1;
    }
    assert(src@.take(src@.len() as int) =~= src@);
    let n = s.len();
    let mut a: usize = 0;
    assert(s@.subrange(0, n as int) =~= s@);
    while a < n && s[a] == '-'
        invariant
            a <= n,
            n == s@.len(),
            strip_leading_hyphens(s@) == strip_leading_hyphens(s@.subrange(a as int, n as int)),
        decreases n - a,
    {
        proof {
            lemma_strip_leading_step(s@, a as int);
        }
        a = a + 1;
    }
    let ghost rest = s@.subrange(a as int, n as int);
    assert(strip_leading_hyphens(rest) == rest) by {
        if rest.len() > 0 {
            assert(rest[0] == s@[a as int]);
        }
    }
    let mut b: usize = n;
    assert(rest.subrange(0, (b - a) as int) =~= rest);
    while b > a && s[b - 1] == '-'
        invariant
            a <= b <= n,
            n == s@.len(),
            rest == s@.subrange(a as int, n as int),
            strip_trailing_hyphens(rest) == strip_trailing_hyphens(
                rest.subrange(0, (b - a) as int),
            ),
        decreases b,
    {
        proof {
            assert(rest[(b - a) - 1] == s@[b - 1]);
            lemma_strip_trailing_step(rest, (b - a) as int);
        }
        b = b - 1;
    }
    let ghost kept = rest.subrange(0, (b - a) as int);
    assert(strip_trailing_hyphens(kept) == kept) by {
        if kept.len() > 0 {
            assert(kept.last() == s@[b - 1]);
        }
    }
    assert(kept =~= s@.subrange(a as int, b as int));
    if a == b {
        return string_of(chars_of("library").as_slice());
    }
    let end = if b - a > PROFILE_SLUG_MAX {
        a + PROFILE_SLUG_MAX
    } else {
        b
    };
    let mut out: Vec<char> = Vec::new();
    let mut i = a;
    while i < end
        invariant
            a <= i <= end <= b <= n,
            n == s@.len(),
            out@ == s@.subrange(a as int, i as int),
        decreases end - i,
    {
        out.push(s[i]);
        assert(out@ =~= s@.subrange(a as int, i + 1));
        i = i + 1;
    }
    assert(out@ =~= sanitize_profile_id_spec(id@));
    string_of(out.as_slice())
}

/// Roots for the active profile: the default profile uses `library_roots`;
/// a named one uses the first profile with that id, or none when it is gone.
pub open spec fn active_roots_spec(config: TunexConfig) -> Seq<String> {
    if config.active_profile@.len() == 0 {
        config.library_roots@
    } else {
        match first_profile_with_id(config.profiles@, config.active_profile@) {
            Some(i) => config.profiles@[i].library_roots@,
            None => Seq::empty(),
        }
    }
}

/// Position of the first profile whose id is `id`.
pub open spec fn first_profile_with_id(profiles: Seq<LibraryProfile>, id: Seq<char>) -> Option<int> {
    if exists|i: int| 0 <= i < profiles.len() && #[trigger] profiles[i].id@ == id {
        Some(
            choose|i: int|
                0 <= i < profiles.len() && profiles[i].id@ == id && forall|j: int|
                    0 <= j < i ==> #[trigger] profiles[j].id@ != id,
        )
    } else {
        None
    }
}

/// Position of the first profile with id `id`, searching in order.
pub fn find_profile(profiles: &Vec<LibraryProfile>, id: &str) -> (r: Option<usize>)
    ensures
        r matches Some(i) ==> i < profiles@.len() && first_profile_with_id(profiles@, id@) == Some(
            i as int,
        ),
        r is None ==> first_profile_with_id(profiles@, id@) is None,
{
    let want = chars_of(id);
    let mut i: usize = 0;
    while i < profiles.len()
        invariant
            i <= profiles@.len(),
            want@ == id@,
            forall|j: int| 0 <= j < i ==> #[trigger] profiles@[j].id@ != id@,
        decreases profiles@.len() - i,
    {
        if same_chars(chars_of(profiles[i].id.as_str()).as_slice(), want.as_slice()) {
            proof {
                let w = choose|k: int|
                    0 <= k < profiles@.len() && profiles@[k].id@ == id@ && forall|j: int|
                        0 <= j < k ==> #[trigger] profiles@[j].id@ != id@;
                assert(0 <= i < profiles@.len() && profiles@[i as int].id@ == id@ && forall|j: int|
                    0 <= j < i ==> #[trigger] profiles@[j].id@ != id@);
                if w < i {
                    assert(profiles@[w].id@ != id@);
                }
                if w > i {
                    assert(profiles@[i as int].id@ != id@);
                }
            }
            return Some(i);
        }
        i = i + 1;
    }
    None
}

/// Roots for the active profile (default uses `library_roots`).
pub fn active_roots(config: &TunexConfig) -> (roots: Vec<String>)
    ensures
        roots@ == active_roots_spec(*config),
{
    if config.active_profile.as_str().is_empty() {
        return config.library_roots.clone();
    }
    match find_profile(&config.profiles, config.active_profile.as_str()) {
        Some(i) => config.profiles[i].library_roots.clone(),
        None => Vec::new(),
    }
}

/// Profiles whose ids match position by position share the first match of
/// every id.
proof fn lemma_same_ids_same_first(a: Seq<LibraryProfile>, b: Seq<LibraryProfile>, id: Seq<char>)
    requires
        a.len() == b.len(),
        forall|k: int| 0 <= k < a.len() ==> #[trigger] a[k].id@ == b[k].id@,
    ensures
        first_profile_with_id(a, id) == first_profile_with_id(b, id),
{
    if exists|i: int| 0 <= i < a.len() && #[trigger] a[i].id@ == id {
        let i = choose|i: int| 0 <= i < a.len() && #[trigger] a[i].id@ == id;
        assert(b[i].id@ == id);
        let wa = choose|w: int|
            0 <= w < a.len() && a[w].id@ == id && forall|j: int| 0 <= j < w ==> #[trigger] a[j].id@ != id;
        let wb = choose|w: int|
            0 <= w < b.len() && b[w].id@ == id && forall|j: int| 0 <= j < w ==> #[trigger] b[j].id@ != id;
        lemma_first_exists(a, id);
        lemma_first_exists(b, id);
        if wa < wb {
            assert(b[wa].id@ != id);
        }
        if wb < wa {
            assert(a[wb].id@ != id);
        }
    } else {
        assert forall|i: int| 0 <= i < b.len() implies #[trigger] b[i].id@ != id by {
            assert(a[i].id@ != id);
        }
    }
}

/// When some profile has the id, a first one does.
proof fn lemma_first_exists(a: Seq<LibraryProfile>, id: Seq<char>)
    requires
        exists|i: int| 0 <= i < a.len() && #[trigger] a[i].id@ == id,
    ensures
        exists|w: int|
            0 <= w < a.len() && a[w].id@ == id && forall|j: int| 0 <= j < w ==> #[trigger] a[j].id@ != id,
    decreases a.len(),
{
    if a[a.len() - 1].id@ == id && forall|j: int| 0 <= j < a.len() - 1 ==> #[trigger] a[j].id@ != id {
        assert(a[a.len() - 1].id@ == id);
    } else if a[a.len() - 1].id@ == id {
        let k = choose|j: int| 0 <= j < a.len() - 1 && #[trigger] a[j].id@ == id;
        let p = a.drop_last();
        assert(p[k].id@ == id);
        lemma_first_exists(p, id);
        let w = choose|w: int|
            0 <= w < p.len() && p[w].id@ == id && forall|j: int| 0 <= j < w ==> #[trigger] p[j].id@ != id;
        assert(a[w].id@ == id);
        assert forall|j: int| 0 <= j < w implies #[trigger] a[j].id@ != id by {
            assert(p[j].id@ != id);
        }
    } else {
        let k = choose|j: int| 0 <= j < a.len() && #[trigger] a[j].id@ == id;
        let p = a.drop_last();
        assert(p[k].id@ == id);
        lemma_first_exists(p, id);
        let w = choose|w: int|
            0 <= w < p.len() && p[w].id@ == id && forall|j: int| 0 <= j < w ==> #[trigger] p[j].id@ != id;
        assert(a[w].id@ == id);
        assert forall|j: int| 0 <= j < w implies #[trigger] a[j].id@ != id by {
            assert(p[j].id@ != id);
        }
    }
}

/// `after` is `before` with `folders` stored as the active profile's roots:
/// `library_roots` for the default profile, the first profile with the
/// active id otherwise, nothing when a named active profile is gone.
pub open spec fn roots_stored(before: TunexConfig, after: TunexConfig, folders: Seq<String>) -> bool {
    &&& before.active_profile@.len() == 0 ==> after.library_roots@ == folders && after.profiles
        == before.profiles
    &&& before.active_profile@.len() > 0 ==> after.library_roots == before.library_roots
        && match first_profile_with_id(before.profiles@, before.active_profile@) {
        Some(i) => {
            &&& after.profiles@.len() == before.profiles@.len()
            &&& forall|k: int|
                0 <= k < before.profiles@.len() && k != i ==> #[trigger] after.profiles@[k]
                    == before.profiles@[k]
            &&& after.profiles@[i].id == before.profiles@[i].id
            &&& after.profiles@[i].name == before.profiles@[i].name
            &&& after.profiles@[i].library_roots@ == folders
        },
        None => after.profiles == before.profiles,
    }
    &&& after.active_profile == before.active_profile
    &&& after.playback == before.playback
    &&& after.appearance == before.appearance
    &&& after.window == before.window
    &&& after.view == before.view
    &&& after.enrichment == before.enrichment
    &&& after.notify == before.notify
}

/// Store `folders` as the active profile's roots: `library_roots` for the
/// default profile, the first profile with the active id otherwise; a named
/// profile that is gone stores nothing. Nothing else changes.
pub fn store_active_roots(config: &mut TunexConfig, folders: Vec<String>)
    ensures
        roots_stored(*old(config), *final(config), folders@),
        final(config).active_profile == old(config).active_profile,
        final(config).playback == old(config).playback,
        final(config).appearance == old(config).appearance,
        final(config).window == old(config).window,
        final(config).view == old(config).view,
        final(config).enrichment == old(config).enrichment,
        final(config).notify == old(config).notify,
{
    if config.active_profile.as_str().is_empty() {
        config.library_roots = folders;
        return;
    }
    match find_profile(&config.profiles, config.active_profile.as_str()) {
        Some(i) => {
            let old_profile = config.profiles.remove(i);
            let updated = LibraryProfile {
                id: old_profile.id,
                name: old_profile.name,
                library_roots: folders,
            };
            let ghost put = updated;
            config.profiles.insert(i, updated);
            assert(config.profiles@ =~= old(config).profiles@.update(i as int, put));
        },
        None => {},
    }
}

/// Folders stored for the active profile read back as the active roots,
/// unless a named active profile is gone.
pub proof fn lemma_stored_roots_read_back(before: TunexConfig, after: TunexConfig, folders: Seq<String>)
    requires
        roots_stored(before, after, folders),
        before.active_profile@.len() > 0 ==> first_profile_with_id(
            before.profiles@,
            before.active_profile@,
        ) is Some,
    ensures
        active_roots_spec(after) == folders,
{
    if before.active_profile@.len() > 0 {
        let a = before.profiles@;
        let b = after.profiles@;
        lemma_first_exists(a, before.active_profile@);
        let i = first_profile_with_id(a, before.active_profile@)->0;
        assert(0 <= i < a.len());
        assert forall|k: int| 0 <= k < a.len() implies #[trigger] a[k].id@ == b[k].id@ by {
            if k != i {
                assert(b[k] == a[k]);
            }
        }
        lemma_same_ids_same_first(a, b, before.active_profile@);
    }
}

/// Index path for one settings snapshot: `library.db` in the data directory
/// for the default profile, `profiles/<slug>/library.db` for a named one.
pub open spec fn profile_db_path_spec(config: TunexConfig, data_dir: Seq<char>) -> Seq<char> {
    if config.active_profile@.len() == 0 {
        join_spec(data_dir, "library.db"@)
    } else {
        join_spec(
            join_spec(
                join_spec(data_dir, "profiles"@),
                sanitize_profile_id_spec(config.active_profile@),
            ),
            "library.db"@,
        )
    }
}

/// Index path for one settings snapshot.
pub fn profile_db_path(config: &TunexConfig, data_dir: &str) -> (path: String)
    ensures
        path@ == profile_db_path_spec(*config, data_dir@),
{
    if config.active_profile.as_str().is_empty() {
        join_path(data_dir, "library.db")
    } else {
        let profiles = join_path(data_dir, "profiles");
        let slug = sanitize_profile_id(config.active_profile.as_str());
        let dir = join_path(profiles.as_str(), slug.as_str());
        join_path(dir.as_str(), "library.db")
    }
}

/// Full path of the library index for the active profile of the settings
/// loaded from disk (defaults when they could not be read).
pub fn library_db_path(loaded: &TunexConfig, data_dir: &str) -> (path: String)
    ensures
        path@ == profile_db_path_spec(*loaded, data_dir@),
{
    profile_db_path(loaded, data_dir)
}

/// Most recent searches kept.
pub const RECENT_SEARCHES_MAX: usize = 10;

/// Fewer than two bytes of UTF-8: empty, or one ASCII character.
pub open spec fn under_two_bytes(s: Seq<char>) -> bool {
    s.len() == 0 || (s.len() == 1 && (s[0] as u32) < 0x80)
}

/// `recent` without the entries equal to `q` ignoring ASCII case.
pub open spec fn without_query(recent: Seq<Seq<char>>, q: Seq<char>) -> Seq<Seq<char>> {
    recent.filter(|item: Seq<char>| !eq_ignore_ascii_case(item, q))
}

/// The character views of some strings.
pub open spec fn views(items: Seq<String>) -> Seq<Seq<char>> {
    items.map_values(|s: String| s@)
}

/// The recent-search list after remembering `query`: a query shorter than
/// two bytes once trimmed changes nothing; otherwise the trimmed query goes
/// first, earlier copies (ignoring ASCII case) leave, and the list keeps its
/// newest ten.
pub open spec fn remember_search_spec(recent: Seq<Seq<char>>, query: Seq<char>) -> Seq<Seq<char>> {
    let q = trim(query);
    if under_two_bytes(q) {
        recent
    } else {
        let kept = seq![q] + without_query(recent, q);
        if kept.len() > RECENT_SEARCHES_MAX {
            kept.take(RECENT_SEARCHES_MAX as int)
        } else {
            kept
        }
    }
}

/// Remember a search query, newest first, capped at ten, deduplicated
/// ignoring ASCII case.
pub fn remember_search(recent: &Vec<String>, query: &str) -> (updated: Vec<String>)
    ensures
        views(updated@) == remember_search_spec(views(recent@), query@),
{
    let q = trimmed(&chars_of(query));
    if q.len() == 0 || (q.len() == 1 && (q[0] as u32) < 0x80) {
        assert(views(recent@) =~= remember_search_spec(views(recent@), query@));
        return recent.clone();
    }
    let mut out: Vec<String> = Vec::new();
    out.push(string_of(q.as_slice()));
    let ghost qv = q@;
    let mut i: usize = 0;
    assert(views(out@) =~= seq![qv] + without_query(views(recent@).take(0), qv));
    while i < recent.len()
        invariant
            i <= recent@.len(),
            qv == q@,
            views(out@) == seq![qv] + without_query(views(recent@).take(i as int), qv),
        decreases recent@.len() - i,
    {
        let item = chars_of(recent[i].as_str());
        let ghost before = views(recent@).take(i as int);
        assert(views(recent@).take(i + 1) =~= before.push(item@));
        proof {
            lemma_filter_push(before, item@, qv);
        }
        if !same_ignoring_ascii_case(&item, &q) {
            let ghost o = out@;
            out.push(string_of(item.as_slice()));
            assert(views(out@) =~= views(o).push(item@));
        }
        i = i + 1;
    }
    assert(views(recent@).take(recent@.len() as int) =~= views(recent@));
    if out.len() > RECENT_SEARCHES_MAX {
        out.truncate(RECENT_SEARCHES_MAX);
        assert(views(out@) =~= (seq![qv] + without_query(views(recent@), qv)).take(
            RECENT_SEARCHES_MAX as int,
        ));
    }
    out
}

proof fn lemma_filter_push(s: Seq<Seq<char>>, x: Seq<char>, q: Seq<char>)
    ensures
        without_query(s.push(x), q) == if !eq_ignore_ascii_case(x, q) {
            without_query(s, q).push(x)
        } else {
            without_query(s, q)
        },
{
    reveal_with_fuel(Seq::<_>::filter, 1);
    assert(s.push(x).drop_last() =~= s);
}

/// Loading twice clamps nothing more: a normalized extent stays put.
pub proof fn lemma_normalized_extent_is_stable(saved: u32, minimum: u32)
    ensures
        normalized_extent(normalized_extent(saved, minimum), minimum) == normalized_extent(
            saved,
            minimum,
        ),
{
}

/// A restored window is never smaller than the shell minimum.
pub proof fn lemma_restored_extent_at_least_minimum(saved: u32, default: u32, minimum: u32)
    requires
        default >= minimum,
    ensures
        restored_extent(saved, default, minimum) >= minimum,
{
}

proof fn lemma_without_none_match(s: Seq<Seq<char>>, q: Seq<char>)
    ensures
        forall|i: int|
            0 <= i < without_query(s, q).len() ==> !eq_ignore_ascii_case(
                #[trigger] without_query(s, q)[i],
                q,
            ),
    decreases s.len(),
{
    if s.len() > 0 {
        lemma_without_none_match(s.drop_last(), q);
        lemma_filter_push(s.drop_last(), s.last(), q);
        assert(s.drop_last().push(s.last()) =~= s);
    } else {
        reveal_with_fuel(Seq::<_>::filter, 1);
    }
}

proof fn lemma_without_keeps_clean(s: Seq<Seq<char>>, q: Seq<char>)
    requires
        forall|i: int| 0 <= i < s.len() ==> !eq_ignore_ascii_case(#[trigger] s[i], q),
    ensures
        without_query(s, q) == s,
    decreases s.len(),
{
    if s.len() > 0 {
        lemma_without_keeps_clean(s.drop_last(), q);
        lemma_filter_push(s.drop_last(), s.last(), q);
        assert(s.drop_last().push(s.last()) =~= s);
    } else {
        reveal_with_fuel(Seq::<_>::filter, 1);
        assert(without_query(s, q) =~= s);
    }
}

proof fn lemma_without_drops_match_head(x: Seq<char>, s: Seq<Seq<char>>, q: Seq<char>)
    requires
        eq_ignore_ascii_case(x, q),
    ensures
        without_query(seq![x] + s, q) == without_query(s, q),
    decreases s.len(),
{
    if s.len() == 0 {
        assert(seq![x] + s =~= Seq::<Seq<char>>::empty().push(x));
        lemma_filter_push(Seq::<Seq<char>>::empty(), x, q);
        reveal_with_fuel(Seq::<_>::filter, 1);
    } else {
        lemma_without_drops_match_head(x, s.drop_last(), q);
        assert(seq![x] + s =~= (seq![x] + s.drop_last()).push(s.last()));
        lemma_filter_push(seq![x] + s.drop_last(), s.last(), q);
        lemma_filter_push(s.drop_last(), s.last(), q);
        assert(s.drop_last().push(s.last()) =~= s);
    }
}

/// Remembering a query puts its trimmed text first and keeps at most ten;
/// remembering the same query again changes nothing.
pub proof fn lemma_remember_search_settles(recent: Seq<Seq<char>>, query: Seq<char>)
    requires
        recent.len() <= RECENT_SEARCHES_MAX,
    ensures
        remember_search_spec(recent, query).len() <= RECENT_SEARCHES_MAX,
        !under_two_bytes(trim(query)) ==> remember_search_spec(recent, query)[0] == trim(query),
        remember_search_spec(remember_search_spec(recent, query), query) == remember_search_spec(
            recent,
            query,
        ),
{
    let q = trim(query);
    if !under_two_bytes(q) {
        let w = without_query(recent, q);
        lemma_without_none_match(recent, q);
        let keep = if w.len() > 9 {
            9
        } else {
            w.len() as int
        };
        let w2 = w.take(keep);
        let once = remember_search_spec(recent, query);
        assert(once =~= seq![q] + w2);
        assert forall|i: int| 0 <= i < w2.len() implies !eq_ignore_ascii_case(#[trigger] w2[i], q) by {
            assert(w2[i] == w[i]);
        }
        assert(eq_ignore_ascii_case(q, q));
        lemma_without_drops_match_head(q, w2, q);
        lemma_without_keeps_clean(w2, q);
        assert(remember_search_spec(once, query) =~= seq![q] + w2);
    }
}

} // verus!
