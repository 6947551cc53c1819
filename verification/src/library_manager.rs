//! The library panel's facade: folders and scan progress, view prefs and
//! recent searches, album and artist headers, profiles, and the tag editor.
//!
//! It owns the scan orchestration and a copy of the settings; the shell
//! loads that copy, saves it after each setter, and reports what the index
//! and the filesystem answered.

use vstd::prelude::*;
use crate::browse::{
    AlbumSummary, ArtistSummary, count_i32, fit_or_zero, len_to_i32, sat_i32, text_or,
    text_or_fallback, to_i32_or_zero, to_i32_saturating,
};
use crate::config::{
    EnrichmentConfig, LibraryProfile, TunexConfig, ViewConfig, active_roots, active_roots_spec, first_profile_with_id,
    lemma_stored_roots_read_back, profile_db_path_spec, remember_search, remember_search_spec, roots_stored, store_active_roots,
    views,
};
use crate::error::{Error, message_spec};
use crate::library::{
    polled, profile_gone, reveal_outcome, switch_target_spec, LibraryCore, RescanDecision, ScanStats, blank_profile_name, profile_rows_spec, profiles,
    reserved_profile_ids, row_pairs, status_text_spec,
};
use crate::lists::{TagEdit, parse_tag_edit, tag_edit_spec};
use crate::naming::is_first_free;
use crate::config::sanitize_profile_id_spec;
use crate::text::trim;

verus! {

/// The library panel's state.
pub struct LibraryManager {
    pub core: LibraryCore,
    pub settings: TunexConfig,
}

impl LibraryManager {
    /// Load the active profile's folders and scan (the shell starts the
    /// watcher over them).
    pub fn startup(&mut self) -> (d: RescanDecision)
        ensures
            final(self).core.folders@ == active_roots_spec(old(self).settings),
            !old(self).core.scanning && final(self).core.folders@.len() > 0 ==> (d matches RescanDecision::Start(r) && r@ == final(self).core.folders@),
            !old(self).core.scanning && final(self).core.folders@.len() == 0 ==> d is NothingToScan,
            old(self).core.scanning ==> d is Queued,
            final(self).core.scanning == (old(self).core.scanning || active_roots_spec(
                old(self).settings,
            ).len() > 0),
            final(self).settings == old(self).settings,
    {
        let roots = active_roots(&self.settings);
        self.core.startup(roots)
    }

    /// One poll tick of the scan orchestration (see `LibraryCore::poll`).
    pub fn poll(&mut self, watch_batches: u32, progress: &Vec<ScanStats>, run_closed: bool) -> (d:
        Option<RescanDecision>)
        ensures
            polled(old(self).core, final(self).core, watch_batches, progress@, run_closed, d),
            final(self).settings == old(self).settings,
    {
        self.core.poll(watch_batches, progress, run_closed)
    }

    /// Request a scan now (queued when busy).
    pub fn rescan(&mut self) -> (d: RescanDecision)
        ensures
            old(self).core.scanning ==> d is Queued && final(self).core.pending_rescan,
            !old(self).core.scanning && old(self).core.folders@.len() == 0 ==> d is NothingToScan,
            !old(self).core.scanning && old(self).core.folders@.len() > 0 ==> (d matches RescanDecision::Start(r) && r@ == old(self).core.folders@) && final(self).core.scanning,
            final(self).settings == old(self).settings,
    {
        self.core.rescan()
    }

    /// Whether a scan run is going.
    pub fn is_scanning(&self) -> (b: bool)
        ensures
            b == self.core.scanning,
    {
        self.core.is_scanning()
    }

    /// One-line status for the progress surface.
    pub fn status_text(&self) -> (t: String)
        ensures
            t@ == status_text_spec(self.core.scanning, self.core.last_stats),
    {
        self.core.status_text()
    }

    /// Report a completed run exactly once (views refresh on `true`).
    pub fn take_finished(&mut self) -> (was: bool)
        ensures
            was == old(self).core.finished,
            !final(self).core.finished,
            final(self).core.scanning == old(self).core.scanning,
            final(self).core.folders == old(self).core.folders,
    {
        self.core.take_finished()
    }

    /// Configured folder count.
    pub fn folder_count(&self) -> (n: i32)
        ensures
            n == count_i32(self.core.folders@.len()),
    {
        len_to_i32(self.core.folders.len())
    }

    /// Configured folder at `index`, or empty when out of range.
    pub fn folder_at(&self, index: i32) -> (path: String)
        ensures
            path@ == if 0 <= index < self.core.folders@.len() {
                self.core.folders@[index as int]@
            } else {
                Seq::empty()
            },
    {
        if index >= 0 && (index as usize) < self.core.folders.len() {
            self.core.folders[index as usize].clone()
        } else {
            String::new()
        }
    }

    /// Last folder-operation failure, or empty when clear.
    pub fn error_text(&self) -> (t: String)
        ensures
            t@ == match self.core.last_error {
                Some(m) => m@,
                None => Seq::empty(),
            },
    {
        match self.core.error_text() {
            Some(m) => m,
            None => String::new(),
        }
    }

    /// Whether the filesystem watcher is active.
    pub fn is_watching(&self) -> (b: bool)
        ensures
            b == self.core.watching,
    {
        self.core.is_watching()
    }

    /// Open the parent directory of track `id` (see
    /// `LibraryCore::reveal_track`): the directory for the shell to open, or
    /// none with the reason on the error line.
    pub fn reveal_track(
        &mut self,
        id: i64,
        index_ready: bool,
        row: Result<Option<String>, Error>,
    ) -> (dir: Option<String>)
        ensures
            match reveal_outcome(id, index_ready, row) {
                Ok(d) => dir matches Some(p) && p@ == d && final(self).core.last_error is None,
                Err(m) => dir is None && final(self).core.last_error is Some
                    && final(self).core.last_error->0@ == m,
            },
            final(self).settings == old(self).settings,
    {
        self.core.reveal_track(id, index_ready, row)
    }

    /// After deleting one index row: success clears the error line, failure
    /// surfaces it. Playlist links stay dangling.
    pub fn remove_track(&mut self, outcome: Result<(), Error>) -> (ok: bool)
        ensures
            ok == outcome is Ok,
            match outcome {
                Ok(()) => final(self).core.last_error is None,
                Err(e) => final(self).core.last_error is Some && final(self).core.last_error->0@
                    == message_spec(e),
            },
            final(self).settings == old(self).settings,
    {
        self.core.remove_track(outcome)
    }

    /// Album title (empty when the index does not know the album).
    pub fn album_title(&self, album: &Option<AlbumSummary>) -> (t: String)
        ensures
            t@ == match *album {
                Some(a) => a.title@,
                None => Seq::empty(),
            },
    {
        match album {
            Some(a) => a.title.clone(),
            None => String::new(),
        }
    }

    /// Album artist: `Unknown Artist` when the album or its artist is
    /// unknown.
    pub fn album_artist(&self, album: &Option<AlbumSummary>) -> (t: String)
        ensures
            t@ == match *album {
                Some(a) => text_or(a.artist, "Unknown Artist"@),
                None => "Unknown Artist"@,
            },
    {
        match album {
            Some(a) => text_or_fallback(&a.artist, "Unknown Artist"),
            None => text_or_fallback(&None, "Unknown Artist"),
        }
    }

    /// Album year (0 when unknown or out of range).
    pub fn album_year(&self, album: &Option<AlbumSummary>) -> (y: i32)
        ensures
            y == match *album {
                Some(a) => fit_or_zero(a.year),
                None => 0,
            },
    {
        match album {
            Some(a) => to_i32_or_zero(a.year),
            None => 0,
        }
    }

    /// Album track count (0 when unknown, saturating).
    pub fn album_track_count(&self, album: &Option<AlbumSummary>) -> (n: i32)
        ensures
            n == match *album {
                Some(a) => sat_i32(a.track_count as int),
                None => 0,
            },
    {
        match album {
            Some(a) => to_i32_saturating(a.track_count),
            None => 0,
        }
    }

    /// Album duration for the header, from the index's total in ms: 0 when
    /// it does not fit `i32`.
    pub fn album_duration_ms(&self, total_ms: i64) -> (d: i32)
        ensures
            d == fit_or_zero(Some(total_ms)),
    {
        to_i32_or_zero(Some(total_ms))
    }

    /// Artist album count (0 when unknown, saturating).
    pub fn artist_album_count(&self, artist: &Option<ArtistSummary>) -> (n: i32)
        ensures
            n == match *artist {
                Some(a) => sat_i32(a.album_count as int),
                None => 0,
            },
    {
        match artist {
            Some(a) => to_i32_saturating(a.album_count),
            None => 0,
        }
    }

    /// Artist track count (0 when unknown, saturating).
    pub fn artist_track_count(&self, artist: &Option<ArtistSummary>) -> (n: i32)
        ensures
            n == match *artist {
                Some(a) => sat_i32(a.track_count as int),
                None => 0,
            },
    {
        match artist {
            Some(a) => to_i32_saturating(a.track_count),
            None => 0,
        }
    }

    /// Last library tab (empty until one is chosen).
    pub fn library_tab(&self) -> (v: String)
        ensures
            v@ == self.settings.view.library_tab@,
    {
        self.settings.view.library_tab.clone()
    }

    /// Remember the last library tab; the shell writes the settings file.
    pub fn set_library_tab(&mut self, tab: String)
        ensures
            final(self).settings == (TunexConfig {
                view: ViewConfig { library_tab: tab, ..old(self).settings.view },
                ..old(self).settings
            }),
            final(self).core == old(self).core,
    {
        self.settings.view.library_tab = tab;
    }

    /// Songs-tab sort key (empty until one is chosen).
    pub fn songs_sort(&self) -> (v: String)
        ensures
            v@ == self.settings.view.songs_sort@,
    {
        self.settings.view.songs_sort.clone()
    }

    /// Remember the songs-tab sort key; the shell writes the settings file.
    pub fn set_songs_sort(&mut self, key: String)
        ensures
            final(self).settings == (TunexConfig {
                view: ViewConfig { songs_sort: key, ..old(self).settings.view },
                ..old(self).settings
            }),
            final(self).core == old(self).core,
    {
        self.settings.view.songs_sort = key;
    }

    /// Albums-tab sort key (empty until one is chosen).
    pub fn albums_sort(&self) -> (v: String)
        ensures
            v@ == self.settings.view.albums_sort@,
    {
        self.settings.view.albums_sort.clone()
    }

    /// Remember the albums-tab sort key; the shell writes the settings file.
    pub fn set_albums_sort(&mut self, key: String)
        ensures
            final(self).settings == (TunexConfig {
                view: ViewConfig { albums_sort: key, ..old(self).settings.view },
                ..old(self).settings
            }),
            final(self).core == old(self).core,
    {
        self.settings.view.albums_sort = key;
    }

    /// Artists-tab sort key (empty until one is chosen).
    pub fn artists_sort(&self) -> (v: String)
        ensures
            v@ == self.settings.view.artists_sort@,
    {
        self.settings.view.artists_sort.clone()
    }

    /// Remember the artists-tab sort key; the shell writes the settings file.
    pub fn set_artists_sort(&mut self, key: String)
        ensures
            final(self).settings == (TunexConfig {
                view: ViewConfig { artists_sort: key, ..old(self).settings.view },
                ..old(self).settings
            }),
            final(self).core == old(self).core,
    {
        self.settings.view.artists_sort = key;
    }

    /// Remember a search query (newest first, ten kept, deduplicated
    /// ignoring ASCII case; under two bytes once trimmed changes nothing).
    pub fn remember_search(&mut self, query: &str)
        ensures
            views(final(self).settings.view.recent_searches@) == remember_search_spec(
                views(old(self).settings.view.recent_searches@),
                query@,
            ),
            final(self).settings.profiles == old(self).settings.profiles,
            final(self).core.folders == old(self).core.folders,
    {
        let updated = remember_search(&self.settings.view.recent_searches, query);
        self.settings.view.recent_searches = updated;
    }

    /// How many recent searches are stored.
    pub fn recent_search_count(&self) -> (n: i32)
        ensures
            n == count_i32(self.settings.view.recent_searches@.len()),
    {
        len_to_i32(self.settings.view.recent_searches.len())
    }

    /// Recent search at `index` (0 = newest; empty when out of range).
    pub fn recent_search_at(&self, index: i32) -> (q: String)
        ensures
            q@ == if 0 <= index < self.settings.view.recent_searches@.len() {
                self.settings.view.recent_searches@[index as int]@
            } else {
                Seq::empty()
            },
    {
        if index >= 0 && (index as usize) < self.settings.view.recent_searches.len() {
            self.settings.view.recent_searches[index as usize].clone()
        } else {
            String::new()
        }
    }

    /// Unpack the tag editor's fields for a save.
    pub fn tag_edit(&self, packed: &str) -> (edit: TagEdit)
        ensures
            tag_edit_spec(packed@, edit),
    {
        parse_tag_edit(packed)
    }

    /// After writing tags and re-indexing: 1, or 0 with the failure
    /// surfaced on the error line.
    pub fn tags_saved(&mut self, outcome: Result<(), Error>) -> (ok: i32)
        ensures
            match outcome {
                Ok(()) => ok == 1 && final(self).core.last_error == old(self).core.last_error,
                Err(e) => ok == 0 && final(self).core.last_error is Some
                    && final(self).core.last_error->0@ == message_spec(e),
            },
            final(self).settings == old(self).settings,
    {
        match outcome {
            Ok(()) => 1,
            Err(e) => {
                self.core.record_error(&e);
                0
            },
        }
    }

    /// Active profile id (empty = default).
    pub fn active_profile(&self) -> (id: String)
        ensures
            id@ == self.settings.active_profile@,
    {
        self.settings.active_profile.clone()
    }

    /// How many profiles, the default included.
    pub fn profile_count(&self) -> (n: i32)
        ensures
            n == count_i32(self.settings.profiles@.len() + 1),
    {
        let rows = profiles(&self.settings);
        assert(row_pairs(rows@).len() == rows@.len());
        assert(profile_rows_spec(self.settings.profiles@).len() == self.settings.profiles@.len() + 1);
        len_to_i32(rows.len())
    }

    /// Profile id at `index` (empty out of range; the default's is empty).
    pub fn profile_id_at(&self, index: i32) -> (id: String)
        ensures
            id@ == if 0 <= index < self.settings.profiles@.len() + 1 {
                profile_rows_spec(self.settings.profiles@)[index as int].0
            } else {
                Seq::empty()
            },
    {
        let rows = profiles(&self.settings);
        assert(row_pairs(rows@).len() == rows@.len());
        assert(profile_rows_spec(self.settings.profiles@).len() == self.settings.profiles@.len() + 1);
        if index >= 0 && (index as usize) < rows.len() {
            proof {
                assert(row_pairs(rows@)[index as int] == (rows@[index as int].0@, rows@[index as int].1@));
            }
            rows[index as usize].0.clone()
        } else {
            String::new()
        }
    }

    /// Profile name at `index` (empty out of range).
    pub fn profile_name_at(&self, index: i32) -> (name: String)
        ensures
            name@ == if 0 <= index < self.settings.profiles@.len() + 1 {
                profile_rows_spec(self.settings.profiles@)[index as int].1
            } else {
                Seq::empty()
            },
    {
        let rows = profiles(&self.settings);
        assert(row_pairs(rows@).len() == rows@.len());
        assert(profile_rows_spec(self.settings.profiles@).len() == self.settings.profiles@.len() + 1);
        if index >= 0 && (index as usize) < rows.len() {
            proof {
                assert(row_pairs(rows@)[index as int] == (rows@[index as int].0@, rows@[index as int].1@));
            }
            rows[index as usize].1.clone()
        } else {
            String::new()
        }
    }

    /// Create a named profile: its id, or empty when refused (a blank
    /// name; the reason stands on the error line). The shell saves the
    /// settings after a success.
    pub fn create_profile(&mut self, name: &str) -> (id: String)
        requires
            old(self).settings.profiles@.len() + 1 < i32::MAX,
        ensures
            trim(name@).len() == 0 ==> id@.len() == 0 && final(self).settings.profiles@
                == old(self).settings.profiles@ && final(self).core.last_error is Some && exists|e: Error|
                blank_profile_name(e) && final(self).core.last_error->0@ == message_spec(e),
            trim(name@).len() > 0 ==> is_first_free(
                sanitize_profile_id_spec(trim(name@)),
                '-',
                reserved_profile_ids(old(self).settings.profiles@),
                id@,
            ) && final(self).settings.profiles@.len() == old(self).settings.profiles@.len() + 1
                && final(self).settings.profiles@.last().id == id
                && final(self).settings.profiles@.last().name@ == trim(name@),
    {
        match self.core.create_profile(&mut self.settings.profiles, name) {
            Ok(id) => id,
            Err(_) => String::new(),
        }
    }

    /// Switch the active profile (see `LibraryCore::switch_profile`); the
    /// shell saves the settings and restarts the watcher after a switch.
    pub fn switch_profile(&mut self, id: &str, data_dir: &str) -> (r: Result<
        Option<RescanDecision>,
        Error,
    >)
        ensures
            ({
                let target = switch_target_spec(id@);
                if target.len() > 0 && first_profile_with_id(old(self).settings.profiles@, target)
                    is None {
                    &&& r matches Err(e) && profile_gone(e, target)
                    &&& final(self).core.last_error is Some
                    &&& final(self).core.last_error->0@ == message_spec(r->Err_0)
                    &&& final(self).settings == old(self).settings
                    &&& final(self).core.folders == old(self).core.folders
                } else if old(self).settings.active_profile@ == target {
                    &&& r == Ok::<Option<RescanDecision>, Error>(None)
                    &&& final(self).settings == old(self).settings
                    &&& final(self).core.folders == old(self).core.folders
                } else {
                    &&& r matches Ok(Some(d))
                    &&& final(self).settings.active_profile@ == target
                    &&& final(self).settings.profiles == old(self).settings.profiles
                    &&& final(self).core.db_path@ == profile_db_path_spec(final(self).settings, data_dir@)
                    &&& final(self).core.folders@ == active_roots_spec(final(self).settings)
                    &&& final(self).core.last_error is None
                }
            }),
    {
        self.core.switch_profile(&mut self.settings, id, data_dir)
    }

    /// Add a folder given its canonical form (or why it has none); a new
    /// one is also stored as the active profile's roots, which the shell
    /// then saves before rewatching and scanning.
    pub fn add_folder(&mut self, canonical: Result<String, Error>) -> (added: Result<bool, Error>)
        ensures
            match canonical {
                Err(e) => added == Err::<bool, Error>(e) && final(self).core.last_error is Some
                    && final(self).core.last_error->0@ == message_spec(e) && final(self).core.folders
                    == old(self).core.folders,
                Ok(c) => if exists|i: int| 0 <= i < old(self).core.folders@.len()
                    && #[trigger] old(self).core.folders@[i]@ == c@ {
                    added == Ok::<bool, Error>(false) && final(self).core.folders
                        == old(self).core.folders
                } else {
                    added == Ok::<bool, Error>(true) && final(self).core.folders@
                        == old(self).core.folders@.push(c) && final(self).core.last_error is None
                },
            },
            added == Ok::<bool, Error>(true) ==> roots_stored(
                old(self).settings,
                final(self).settings,
                final(self).core.folders@,
            ),
            added == Ok::<bool, Error>(true) && (old(self).settings.active_profile@.len() == 0
                || first_profile_with_id(
                old(self).settings.profiles@,
                old(self).settings.active_profile@,
            ) is Some) ==> active_roots_spec(final(self).settings) == final(self).core.folders@,
            added != Ok::<bool, Error>(true) ==> final(self).settings == old(self).settings,
    {
        let added = self.core.add_folder(canonical);
        match added {
            Ok(true) => {
                let folders = self.core.folders.clone();
                assert(folders@ =~= self.core.folders@);
                let ghost before = self.settings;
                store_active_roots(&mut self.settings, folders);
                proof {
                    if before.active_profile@.len() == 0 || first_profile_with_id(
                        before.profiles@,
                        before.active_profile@,
                    ) is Some {
                        lemma_stored_roots_read_back(before, self.settings, self.core.folders@);
                    }
                }
            },
            _ => {},
        }
        added
    }

    /// Remove a configured folder (matched by its canonical or literal
    /// form); the remaining folders are stored as the active profile's
    /// roots, which the shell saves before dropping the folder's rows.
    pub fn remove_folder(&mut self, key: &str) -> (removed: Option<String>)
        ensures
            match removed {
                Some(r) => r@ == key@ && final(self).core.last_error is None && exists|i: int|
                    0 <= i < old(self).core.folders@.len() && old(self).core.folders@[i]@ == key@
                    && final(self).core.folders@ == old(self).core.folders@.remove(i) && forall|j: int|
                    0 <= j < i ==> #[trigger] old(self).core.folders@[j]@ != key@,
                None => final(self).core.folders == old(self).core.folders && forall|j: int|
                    0 <= j < old(self).core.folders@.len() ==> #[trigger] old(self).core.folders@[j]@
                        != key@,
            },
            removed is Some ==> roots_stored(
                old(self).settings,
                final(self).settings,
                final(self).core.folders@,
            ),
            removed is Some && (old(self).settings.active_profile@.len() == 0 || first_profile_with_id(
                old(self).settings.profiles@,
                old(self).settings.active_profile@,
            ) is Some) ==> active_roots_spec(final(self).settings) == final(self).core.folders@,
            removed is None ==> final(self).settings == old(self).settings,
    {
        let removed = self.core.remove_folder(key);
        if removed.is_some() {
            let folders = self.core.folders.clone();
            assert(folders@ =~= self.core.folders@);
            let ghost before = self.settings;
            store_active_roots(&mut self.settings, folders);
            proof {
                if before.active_profile@.len() == 0 || first_profile_with_id(
                    before.profiles@,
                    before.active_profile@,
                ) is Some {
                    lemma_stored_roots_read_back(before, self.settings, self.core.folders@);
                }
            }
        }
        removed
    }

    /// `MusicBrainz` opt-in (default off).
    pub fn musicbrainz_on(&self) -> (b: bool)
        ensures
            b == self.settings.enrichment.musicbrainz,
    {
        self.settings.enrichment.musicbrainz
    }

    /// Set the `MusicBrainz` opt-in (the shell saves the settings).
    pub fn set_musicbrainz_on(&mut self, on: bool)
        ensures
            final(self).settings == (TunexConfig {
                enrichment: EnrichmentConfig { musicbrainz: on, ..old(self).settings.enrichment },
                ..old(self).settings
            }),
            final(self).core == old(self).core,
    {
        self.settings.enrichment.musicbrainz = on;
    }
}

} // verus!
