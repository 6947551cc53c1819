//! Library orchestration: configured folders, one scan run at a time,
//! watcher batches folded into a single follow-up run, and the rows the
//! folders and profile panels read.
//!
//! Threads, the filesystem watcher and the index belong to the shell; it
//! reports what arrived and performs what the decisions here ask for.

use vstd::prelude::*;
use crate::config::{
    LibraryProfile, TunexConfig, active_roots, active_roots_spec, find_profile,
    first_profile_with_id, is_slug_char, lemma_sanitize_fixes_clean_ids, lemma_sanitized_shape,
    profile_db_path, profile_db_path_spec, sanitize_profile_id, sanitize_profile_id_spec,
    slug_shaped, views, PROFILE_SLUG_MAX,
};
use crate::error::{Error, message_spec};
use crate::naming::{first_free_name, is_first_free, numbered_name};
use crate::text::{
    chars_of, decimal, i64_to_string, push_all, push_decimal, same_chars, signed_decimal,
    string_of, trim, trimmed, is_digit, digits_value, lemma_decimal_digits, lemma_decimal_value,
};

verus! {

/// What `Path::parent` gives for a path: `None` at a root, a prefix, or the
/// empty path; otherwise the path without its final component.
pub uninterp spec fn path_parent(path: Seq<char>) -> Option<Seq<char>>;

/// The parent of `path` (`Path::parent`).
#[verifier::external_body]
fn parent_of(path: &str) -> (parent: Option<String>)
    ensures
        match parent {
            Some(p) => path_parent(path@) == Some(p@),
            None => path_parent(path@) is None,
        },
        path@.len() == 0 ==> parent is None,
{
    std::path::Path::new(path).parent().map(|p| p.to_string_lossy().into_owned())
}

/// The directory to open for a track: its parent, or the path itself when
/// it has none (or an empty one).
pub open spec fn parent_dir_spec(path: Seq<char>) -> Seq<char> {
    match path_parent(path) {
        Some(p) => if p.len() > 0 {
            p
        } else {
            path
        },
        None => path,
    }
}

/// Parent directory of a track path (the file manager target). A path with
/// no parent falls back to itself.
pub fn parent_dir_for_path(path: &str) -> (dir: String)
    ensures
        dir@ == parent_dir_spec(path@),
{
    match parent_of(path) {
        Some(p) => if p.as_str().is_empty() {
            string_of(chars_of(path).as_slice())
        } else {
            p
        },
        None => string_of(chars_of(path).as_slice()),
    }
}

/// Counters of one scan run.
#[derive(Clone, Copy, Debug, PartialEq, Eq, Structural)]
pub struct ScanStats {
    pub files_seen: u64,
    pub tracks_added: u64,
    pub tracks_unchanged: u64,
    pub metadata_failed: u64,
    pub renamed: u64,
    pub missing_marked: u64,
}

impl ScanStats {
    /// All counters zero.
    pub fn zero() -> (s: Self)
        ensures
            s.files_seen == 0 && s.tracks_added == 0 && s.tracks_unchanged == 0
                && s.metadata_failed == 0 && s.renamed == 0 && s.missing_marked == 0,
    {
        ScanStats {
            files_seen: 0,
            tracks_added: 0,
            tracks_unchanged: 0,
            metadata_failed: 0,
            renamed: 0,
            missing_marked: 0,
        }
    }
}

/// Counter-wise sum, when every sum fits.
pub open spec fn stats_fit(a: ScanStats, b: ScanStats) -> bool {
    &&& a.files_seen + b.files_seen <= u64::MAX
    &&& a.tracks_added + b.tracks_added <= u64::MAX
    &&& a.tracks_unchanged + b.tracks_unchanged <= u64::MAX
    &&& a.metadata_failed + b.metadata_failed <= u64::MAX
    &&& a.renamed + b.renamed <= u64::MAX
    &&& a.missing_marked + b.missing_marked <= u64::MAX
}

/// Totals of earlier roots plus the current root's snapshot, counter by
/// counter: what the progress surface shows across a multi-root run.
pub fn combine_stats(total: ScanStats, snapshot: ScanStats) -> (s: ScanStats)
    requires
        stats_fit(total, snapshot),
    ensures
        s.files_seen == total.files_seen + snapshot.files_seen,
        s.tracks_added == total.tracks_added + snapshot.tracks_added,
        s.tracks_unchanged == total.tracks_unchanged + snapshot.tracks_unchanged,
        s.metadata_failed == total.metadata_failed + snapshot.metadata_failed,
        s.renamed == total.renamed + snapshot.renamed,
        s.missing_marked == total.missing_marked + snapshot.missing_marked,
{
    ScanStats {
        files_seen: total.files_seen + snapshot.files_seen,
        tracks_added: total.tracks_added + snapshot.tracks_added,
        tracks_unchanged: total.tracks_unchanged + snapshot.tracks_unchanged,
        metadata_failed: total.metadata_failed + snapshot.metadata_failed,
        renamed: total.renamed + snapshot.renamed,
        missing_marked: total.missing_marked + snapshot.missing_marked,
    }
}

/// What a scan request turned into.
#[derive(Debug)]
pub enum RescanDecision {
    /// A run is going: one follow-up run is queued behind it.
    Queued,
    /// No folders: nothing to scan.
    NothingToScan,
    /// Start a run over these roots now.
    Start(Vec<String>),
}

/// One line for the progress surface.
pub open spec fn status_text_spec(scanning: bool, stats: ScanStats) -> Seq<char> {
    if scanning {
        "Scanning… "@ + decimal(stats.files_seen as nat) + " files · "@ + decimal(
            stats.tracks_added as nat,
        ) + " tracks"@
    } else if stats.files_seen > 0 {
        "Up to date · "@ + decimal(stats.tracks_added as nat) + " tracks from "@ + decimal(
            stats.files_seen as nat,
        ) + " files"@
    } else {
        "Idle"@
    }
}

/// While a run goes, the status line reads "Scanning… F files · T tracks"
/// where F is written in decimal digits that read back as the files-seen
/// counter and T as the tracks-added counter; after a run that saw files it
/// reads "Up to date · T tracks from F files"; before any, "Idle".
pub proof fn lemma_status_line_counts(scanning: bool, stats: ScanStats)
    ensures
        ({
            let f = decimal(stats.files_seen as nat);
            let t = decimal(stats.tracks_added as nat);
            &&& digits_value(f) == stats.files_seen
            &&& digits_value(t) == stats.tracks_added
            &&& forall|i: int| 0 <= i < f.len() ==> is_digit(#[trigger] f[i])
            &&& forall|i: int| 0 <= i < t.len() ==> is_digit(#[trigger] t[i])
            &&& scanning ==> status_text_spec(scanning, stats) == "Scanning… "@ + f + " files · "@ + t
                + " tracks"@
            &&& !scanning && stats.files_seen > 0 ==> status_text_spec(scanning, stats)
                == "Up to date · "@ + t + " tracks from "@ + f + " files"@
            &&& !scanning && stats.files_seen == 0 ==> status_text_spec(scanning, stats) == "Idle"@
        }),
{
    lemma_decimal_value(stats.files_seen as nat);
    lemma_decimal_value(stats.tracks_added as nat);
    lemma_decimal_digits(stats.files_seen as nat);
    lemma_decimal_digits(stats.tracks_added as nat);
}

/// Folder configuration plus scan-run orchestration.
pub struct LibraryCore {
    /// Settings file folders persist into.
    pub config_path: String,
    /// Library index path.
    pub db_path: String,
    /// A scan run is going.
    pub scanning: bool,
    /// A rescan was requested while busy (or by the watcher).
    pub pending_rescan: bool,
    /// A run completed since the last `take_finished`.
    pub finished: bool,
    /// Counters of the current (or most recent) run.
    pub last_stats: ScanStats,
    /// Configured roots, in settings order.
    pub folders: Vec<String>,
    /// Last folder-operation failure.
    pub last_error: Option<String>,
    /// Whether the filesystem watcher is active.
    pub watching: bool,
}

/// What one poll tick does: watcher batches request a rescan; progress
/// snapshots keep the latest; a closed progress channel ends the run, which
/// stays to be reported even when a pending rescan starts in the same tick;
/// a pending rescan starts when idle (or reports nothing to scan).
pub open spec fn polled(
    before: LibraryCore,
    after: LibraryCore,
    watch_batches: u32,
    progress: Seq<ScanStats>,
    run_closed: bool,
    d: Option<RescanDecision>,
) -> bool {
    let stats = if before.scanning && progress.len() > 0 {
        progress.last()
    } else {
        before.last_stats
    };
    let ended = before.scanning && run_closed;
    let scanning_after = before.scanning && !run_closed;
    let pending = before.pending_rescan || watch_batches > 0;
    let restarted = pending && !scanning_after && before.folders@.len() > 0;
    &&& after.last_stats == stats
    &&& after.finished == if ended {
        true
    } else if restarted {
        false
    } else {
        before.finished
    }
    &&& (pending && !scanning_after) ==> d is Some && !after.pending_rescan && (before.folders@.len()
        > 0 ==> after.scanning && (d matches Some(RescanDecision::Start(r)) && r@ == before.folders@))
        && (before.folders@.len() == 0 ==> d == Some(RescanDecision::NothingToScan)
        && !after.scanning)
    &&& !(pending && !scanning_after) ==> d is None && after.pending_rescan == pending
        && after.scanning == scanning_after
    &&& after.folders == before.folders
    &&& after.last_error == before.last_error
    &&& after.watching == before.watching
}

/// A run whose progress channel closes during a poll is left to be
/// reported: `take_finished` then answers true for it, whatever the same
/// poll started next.
pub proof fn lemma_closed_run_is_reported(
    before: LibraryCore,
    after: LibraryCore,
    watch_batches: u32,
    progress: Seq<ScanStats>,
    d: Option<RescanDecision>,
)
    requires
        before.scanning,
        polled(before, after, watch_batches, progress, true, d),
    ensures
        after.finished,
{
}

/// What revealing track `id` comes to: the directory to open (the parent of
/// the row's path), or the error line. No index yet and an unknown row are
/// refused as configuration errors; an index failure is reported as is.
pub open spec fn reveal_outcome(id: i64, index_ready: bool, row: Result<Option<String>, Error>) -> Result<
    Seq<char>,
    Seq<char>,
> {
    if !index_ready {
        Err("invalid configuration: "@ + "library index is not ready"@)
    } else {
        match row {
            Err(e) => Err(message_spec(e)),
            Ok(None) => Err(
                "invalid configuration: "@ + ("track "@ + signed_decimal(id as int)
                    + " is not in the library"@),
            ),
            Ok(Some(path)) => Ok(parent_dir_spec(path@)),
        }
    }
}

/// The parent directory of track `id`, given whether the index exists and
/// what it gave for the row (its path, no row, or a failure).
pub fn track_parent_dir(id: i64, index_ready: bool, row: Result<Option<String>, Error>) -> (r: Result<
    String,
    Error,
>)
    ensures
        match r {
            Ok(d) => reveal_outcome(id, index_ready, row) == Ok::<Seq<char>, Seq<char>>(d@),
            Err(e) => reveal_outcome(id, index_ready, row) == Err::<Seq<char>, Seq<char>>(
                message_spec(e),
            ),
        },
{
    if !index_ready {
        return Err(Error::Config(string_of(chars_of("library index is not ready").as_slice())));
    }
    match row {
        Err(e) => Err(e),
        Ok(None) => {
            let mut text: Vec<char> = chars_of("track ");
            push_all(&mut text, chars_of(i64_to_string(id).as_str()).as_slice());
            push_all(&mut text, chars_of(" is not in the library").as_slice());
            Err(Error::Config(string_of(text.as_slice())))
        },
        Ok(Some(path)) => Ok(parent_dir_for_path(path.as_str())),
    }
}

impl LibraryCore {
    /// Orchestration over explicit paths: idle, no folders.
    pub fn with_paths(config_path: String, db_path: String) -> (core: Self)
        ensures
            core.config_path == config_path,
            core.db_path == db_path,
            !core.scanning && !core.pending_rescan && !core.finished && !core.watching,
            core.folders@.len() == 0,
            core.last_error is None,
            core.last_stats.files_seen == 0 && core.last_stats.tracks_added == 0,
    {
        LibraryCore {
            config_path,
            db_path,
            scanning: false,
            pending_rescan: false,
            finished: false,
            last_stats: ScanStats::zero(),
            folders: Vec::new(),
            last_error: None,
            watching: false,
        }
    }

    /// Request a scan: starts now when idle and there are folders, else
    /// queues one run behind the current one.
    pub fn rescan(&mut self) -> (d: RescanDecision)
        ensures
            old(self).scanning ==> d is Queued && final(self).pending_rescan && final(self).scanning
                && final(self).finished == old(self).finished,
            !old(self).scanning && old(self).folders@.len() == 0 ==> d is NothingToScan
                && !final(self).scanning && final(self).pending_rescan == old(self).pending_rescan
                && final(self).finished == old(self).finished,
            !old(self).scanning && old(self).folders@.len() > 0 ==> (d matches RescanDecision::Start(
                roots,
            ) && roots@ == old(self).folders@) && final(self).scanning && !final(self).finished
                && final(self).pending_rescan == old(self).pending_rescan,
            final(self).folders == old(self).folders,
            final(self).last_stats == old(self).last_stats,
            final(self).last_error == old(self).last_error,
            final(self).watching == old(self).watching,
            final(self).db_path == old(self).db_path,
            final(self).config_path == old(self).config_path,
    {
        if self.scanning {
            self.pending_rescan = true;
            return RescanDecision::Queued;
        }
        if self.folders.len() == 0 {
            return RescanDecision::NothingToScan;
        }
        self.scanning = true;
        self.finished = false;
        RescanDecision::Start(self.folders.clone())
    }

    /// Load the active profile's folders (the shell restarts the watcher),
    /// then scan.
    pub fn startup(&mut self, roots: Vec<String>) -> (d: RescanDecision)
        ensures
            final(self).folders == roots,
            old(self).scanning ==> d is Queued,
            !old(self).scanning && roots@.len() == 0 ==> d is NothingToScan,
            !old(self).scanning && roots@.len() > 0 ==> (d matches RescanDecision::Start(r)
                && r@ == roots@) && final(self).scanning,
            final(self).scanning == (old(self).scanning || roots@.len() > 0),
            final(self).watching == old(self).watching,
    {
        self.folders = roots;
        self.rescan()
    }

    /// One poll tick: watcher batches request a rescan; progress snapshots
    /// keep the latest; a closed progress channel ends the run (reported
    /// once by `take_finished`); a pending rescan starts when idle.
    pub fn poll(&mut self, watch_batches: u32, progress: &Vec<ScanStats>, run_closed: bool) -> (d:
        Option<RescanDecision>)
        ensures
            polled(*old(self), *final(self), watch_batches, progress@, run_closed, d),
    {
        if watch_batches > 0 {
            self.pending_rescan = true;
        }
        let ended = self.scanning && run_closed;
        if self.scanning {
            if progress.len() > 0 {
                self.last_stats = progress[progress.len() - 1];
            }
            if run_closed {
                self.scanning = false;
                self.finished = true;
            }
        }
        if self.pending_rescan && !self.scanning {
            self.pending_rescan = false;
            let d = self.rescan();
            if ended {
                self.finished = true;
            }
            return Some(d);
        }
        None
    }

    /// Whether a scan run is going.
    pub fn is_scanning(&self) -> (b: bool)
        ensures
            b == self.scanning,
    {
        self.scanning
    }

    /// Report a completed run exactly once.
    pub fn take_finished(&mut self) -> (was: bool)
        ensures
            was == old(self).finished,
            !final(self).finished,
            final(self).scanning == old(self).scanning,
            final(self).pending_rescan == old(self).pending_rescan,
            final(self).folders == old(self).folders,
            final(self).last_stats == old(self).last_stats,
    {
        let was = self.finished;
        self.finished = false;
        was
    }

    /// One-line status for the progress surface.
    pub fn status_text(&self) -> (t: String)
        ensures
            t@ == status_text_spec(self.scanning, self.last_stats),
    {
        let mut out: Vec<char> = Vec::new();
        let s = self.last_stats;
        if self.scanning {
            push_all(&mut out, chars_of("Scanning… ").as_slice());
            push_decimal(&mut out, s.files_seen);
            push_all(&mut out, chars_of(" files · ").as_slice());
            push_decimal(&mut out, s.tracks_added);
            push_all(&mut out, chars_of(" tracks").as_slice());
        } else if s.files_seen > 0 {
            push_all(&mut out, chars_of("Up to date · ").as_slice());
            push_decimal(&mut out, s.tracks_added);
            push_all(&mut out, chars_of(" tracks from ").as_slice());
            push_decimal(&mut out, s.files_seen);
            push_all(&mut out, chars_of(" files").as_slice());
        } else {
            push_all(&mut out, chars_of("Idle").as_slice());
        }
        assert(out@ =~= status_text_spec(self.scanning, self.last_stats));
        string_of(out.as_slice())
    }

    /// Configured roots, in settings order.
    pub fn folders(&self) -> (f: Vec<String>)
        ensures
            f@ == self.folders@,
    {
        self.folders.clone()
    }

    /// Last folder-operation failure, if any.
    pub fn error_text(&self) -> (m: Option<String>)
        ensures
            m == self.last_error,
    {
        match &self.last_error {
            Some(t) => Some(t.clone()),
            None => None,
        }
    }

    /// Whether the filesystem watcher is active.
    pub fn is_watching(&self) -> (b: bool)
        ensures
            b == self.watching,
    {
        self.watching
    }

    /// After the folders changed the shell drops the old watcher and, when
    /// any folder is configured, starts one over them; `started` says
    /// whether that worked. No folders, or a watcher that failed to start,
    /// leaves the library unwatched (manual rescans still work).
    pub fn restart_watcher(&mut self, started: bool)
        ensures
            final(self).watching == (started && old(self).folders@.len() > 0),
            final(self).folders == old(self).folders,
            final(self).scanning == old(self).scanning,
            final(self).pending_rescan == old(self).pending_rescan,
            final(self).finished == old(self).finished,
            final(self).last_error == old(self).last_error,
    {
        self.watching = started && self.folders.len() > 0;
    }

    /// Record whether the (re)started watcher runs.
    pub fn set_watching(&mut self, watching: bool)
        ensures
            final(self).watching == watching,
            final(self).folders == old(self).folders,
            final(self).scanning == old(self).scanning,
            final(self).pending_rescan == old(self).pending_rescan,
            final(self).finished == old(self).finished,
            final(self).last_error == old(self).last_error,
    {
        self.watching = watching;
    }

    /// Add a folder given its canonical form (or why it has none): a folder
    /// already configured changes nothing; a new one is appended and clears
    /// the error line. Returns whether it was added (the shell then
    /// persists, rewatches and scans).
    pub fn add_folder(&mut self, canonical: Result<String, Error>) -> (added: Result<bool, Error>)
        ensures
            match canonical {
                Err(e) => added == Err::<bool, Error>(e) && final(self).last_error is Some
                    && final(self).last_error->0@ == message_spec(e) && final(self).folders
                    == old(self).folders,
                Ok(c) => if exists|i: int| 0 <= i < old(self).folders@.len()
                    && #[trigger] old(self).folders@[i]@ == c@ {
                    added == Ok::<bool, Error>(false) && final(self).folders == old(self).folders
                        && final(self).last_error == old(self).last_error
                } else {
                    added == Ok::<bool, Error>(true) && final(self).folders@ == old(self).folders@.push(c)
                        && final(self).last_error is None
                },
            },
            final(self).scanning == old(self).scanning,
            final(self).pending_rescan == old(self).pending_rescan,
            final(self).watching == old(self).watching,
    {
        let c = match canonical {
            Err(e) => {
                self.last_error = Some(e.message());
                return Err(e);
            },
            Ok(c) => c,
        };
        let want = chars_of(c.as_str());
        let mut i: usize = 0;
        while i < self.folders.len()
            invariant
                i <= self.folders@.len(),
                want@ == c@,
                canonical == Ok::<String, Error>(c),
                self.folders == old(self).folders,
                self.last_error == old(self).last_error,
                self.scanning == old(self).scanning,
                self.pending_rescan == old(self).pending_rescan,
                self.watching == old(self).watching,
                forall|j: int| 0 <= j < i ==> #[trigger] self.folders@[j]@ != c@,
            decreases self.folders@.len() - i,
        {
            if same_chars(chars_of(self.folders[i].as_str()).as_slice(), want.as_slice()) {
                return Ok(false);
            }
            i = i + 1;
        }
        self.folders.push(c);
        self.last_error = None;
        Ok(true)
    }

    /// Remove a folder matched by its canonical (or literal) form: returns
    /// it when configured, clearing the error line.
    pub fn remove_folder(&mut self, key: &str) -> (removed: Option<String>)
        ensures
            match removed {
                Some(r) => r@ == key@ && final(self).last_error is None && exists|i: int|
                    0 <= i < old(self).folders@.len() && old(self).folders@[i]@ == key@
                    && final(self).folders@ == old(self).folders@.remove(i) && forall|j: int|
                    0 <= j < i ==> #[trigger] old(self).folders@[j]@ != key@,
                None => final(self).folders == old(self).folders && final(self).last_error == old(
                    self,
                ).last_error && forall|j: int|
                    0 <= j < old(self).folders@.len() ==> #[trigger] old(self).folders@[j]@ != key@,
            },
            final(self).scanning == old(self).scanning,
    {
        let want = chars_of(key);
        let mut i: usize = 0;
        while i < self.folders.len()
            invariant
                i <= self.folders@.len(),
                want@ == key@,
                self.folders == old(self).folders,
                self.last_error == old(self).last_error,
                self.scanning == old(self).scanning,
                forall|j: int| 0 <= j < i ==> #[trigger] self.folders@[j]@ != key@,
            decreases self.folders@.len() - i,
        {
            if same_chars(chars_of(self.folders[i].as_str()).as_slice(), want.as_slice()) {
                let removed = self.folders.remove(i);
                self.last_error = None;
                return Some(removed);
            }
            i = i + 1;
        }
        None
    }

    /// A folder change could not be persisted (or a lookup failed): surface
    /// its message.
    pub fn record_error(&mut self, e: &Error)
        ensures
            final(self).last_error is Some,
            final(self).last_error->0@ == message_spec(*e),
            final(self).folders == old(self).folders,
            final(self).scanning == old(self).scanning,
            final(self).pending_rescan == old(self).pending_rescan,
            final(self).finished == old(self).finished,
    {
        self.last_error = Some(e.message());
    }

    /// A folder operation succeeded: clear the error line.
    pub fn clear_error(&mut self)
        ensures
            final(self).last_error is None,
            final(self).folders == old(self).folders,
            final(self).scanning == old(self).scanning,
            final(self).pending_rescan == old(self).pending_rescan,
            final(self).finished == old(self).finished,
    {
        self.last_error = None;
    }

    /// Open the parent directory of track `id`: the directory for the
    /// shell to open, or none with the reason on the error line. The shell
    /// says whether the index exists and what the index gave for the row
    /// (its path, no row, or a database failure).
    pub fn reveal_track(
        &mut self,
        id: i64,
        index_ready: bool,
        row: Result<Option<String>, Error>,
    ) -> (dir: Option<String>)
        ensures
            match reveal_outcome(id, index_ready, row) {
                Ok(d) => dir matches Some(p) && p@ == d && final(self).last_error is None,
                Err(m) => dir is None && final(self).last_error is Some
                    && final(self).last_error->0@ == m,
            },
            final(self).folders == old(self).folders,
            final(self).scanning == old(self).scanning,
            final(self).watching == old(self).watching,
    {
        match track_parent_dir(id, index_ready, row) {
            Ok(p) => {
                self.last_error = None;
                Some(p)
            },
            Err(e) => {
                self.last_error = Some(e.message());
                None
            },
        }
    }

    /// After deleting one index row: success clears the error line, failure
    /// surfaces it.
    pub fn remove_track(&mut self, outcome: Result<(), Error>) -> (ok: bool)
        ensures
            ok == outcome is Ok,
            match outcome {
                Ok(()) => final(self).last_error is None,
                Err(e) => final(self).last_error is Some && final(self).last_error->0@
                    == message_spec(e),
            },
            final(self).folders == old(self).folders,
    {
        match outcome {
            Ok(()) => {
                self.last_error = None;
                true
            },
            Err(e) => {
                self.last_error = Some(e.message());
                false
            },
        }
    }
}

/// The profile id a switch request names: the default for an empty id or
/// `default`, else the sanitized id.
pub open spec fn switch_target_spec(id: Seq<char>) -> Seq<char> {
    if id.len() == 0 || id == "default"@ {
        Seq::empty()
    } else {
        sanitize_profile_id_spec(id)
    }
}

/// The profile id a switch request names.
pub fn switch_target(id: &str) -> (target: String)
    ensures
        target@ == switch_target_spec(id@),
{
    let chars = chars_of(id);
    if chars.len() == 0 || same_chars(chars.as_slice(), chars_of("default").as_slice()) {
        String::new()
    } else {
        sanitize_profile_id(id)
    }
}


/// Ids a new profile must avoid: every existing id, and `default`.
pub open spec fn reserved_profile_ids(profiles: Seq<LibraryProfile>) -> Seq<Seq<char>> {
    profiles.map_values(|p: LibraryProfile| p.id@).push("default"@)
}

/// The id for a new profile slugged `slug`: the slug itself, else `slug-2`,
/// `slug-3`, … whichever comes first and is neither in use nor `default`.
pub fn fresh_profile_id(profiles: &Vec<LibraryProfile>, slug: &str) -> (id: String)
    requires
        profiles@.len() + 1 < i32::MAX,
    ensures
        is_first_free(slug@, '-', reserved_profile_ids(profiles@), id@),
{
    let mut taken: Vec<String> = Vec::new();
    let mut i: usize = 0;
    while i < profiles.len()
        invariant
            i <= profiles@.len(),
            taken@.len() == i,
            views(taken@) == profiles@.take(i as int).map_values(|p: LibraryProfile| p.id@),
        decreases profiles@.len() - i,
    {
        let c = profiles[i].id.clone();
        assert(c@ == profiles@[i as int].id@);
        let ghost before = taken@;
        taken.push(c);
        assert forall|j: int| 0 <= j < i + 1 implies #[trigger] views(taken@)[j] == profiles@.take(
            i + 1,
        ).map_values(|p: LibraryProfile| p.id@)[j] by {
            if j < i {
                assert(taken@[j] == before[j]);
                assert(views(before)[j] == profiles@.take(i as int).map_values(
                    |p: LibraryProfile| p.id@,
                )[j]);
            }
        }
        assert(views(taken@) =~= profiles@.take(i + 1).map_values(|p: LibraryProfile| p.id@));
        i = i + 1;
    }
    taken.push(string_of(chars_of("default").as_slice()));
    assert(profiles@.take(profiles@.len() as int) =~= profiles@);
    assert(views(taken@) =~= reserved_profile_ids(profiles@));
    first_free_name(slug, '-', &taken)
}

/// The error a blank profile name gets.
pub open spec fn blank_profile_name(e: Error) -> bool {
    e matches Error::Config(m) && m@ == "profile name must not be blank"@
}

impl LibraryCore {
    /// Create a named profile with no roots (the shell saves the settings
    /// afterwards). The name is trimmed; a blank one is refused and
    /// surfaced. The id is the name's slug made unique.
    pub fn create_profile(&mut self, profiles: &mut Vec<LibraryProfile>, name: &str) -> (r: Result<
        String,
        Error,
    >)
        requires
            old(profiles)@.len() + 1 < i32::MAX,
        ensures
            trim(name@).len() == 0 ==> (r matches Err(e) && blank_profile_name(e)
                && final(self).last_error is Some && final(self).last_error->0@ == message_spec(e))
                && final(profiles)@ == old(profiles)@,
            trim(name@).len() > 0 ==> (r matches Ok(id) && is_first_free(
                sanitize_profile_id_spec(trim(name@)),
                '-',
                reserved_profile_ids(old(profiles)@),
                id@,
            ) && final(profiles)@.len() == old(profiles)@.len() + 1 && final(profiles)@.take(
                old(profiles)@.len() as int,
            ) == old(profiles)@ && final(profiles)@.last().id == id && final(profiles)@.last().name@
                == trim(name@) && final(profiles)@.last().library_roots@.len() == 0)
                && final(self).last_error == old(self).last_error,
            final(self).folders == old(self).folders,
            final(self).scanning == old(self).scanning,
            final(self).pending_rescan == old(self).pending_rescan,
            final(self).finished == old(self).finished,
    {
        let name = trimmed(&chars_of(name));
        if name.len() == 0 {
            let e = Error::Config(string_of(chars_of("profile name must not be blank").as_slice()));
            self.last_error = Some(e.message());
            return Err(e);
        }
        let name = string_of(name.as_slice());
        let slug = sanitize_profile_id(name.as_str());
        let id = fresh_profile_id(profiles, slug.as_str());
        profiles.push(LibraryProfile { id: id.clone(), name, library_roots: Vec::new() });
        assert(final(profiles)@.take(old(profiles)@.len() as int) =~= old(profiles)@);
        Ok(id)
    }
}


/// The error a switch to a profile that is gone gets.
pub open spec fn profile_gone(e: Error, target: Seq<char>) -> bool {
    e matches Error::Config(m) && m@ == "profile "@ + target + " is gone"@
}

impl LibraryCore {
    /// Switch the active profile (the shell has persisted the folders and
    /// saves the settings afterwards). An empty id or `default` names the
    /// default profile; others are sanitized. A named profile that is not
    /// configured is refused and surfaced; switching to the active one
    /// changes nothing. Otherwise the index path and folders follow the new
    /// profile, the error line clears, and a scan is requested (the shell
    /// restarts the watcher first).
    pub fn switch_profile(&mut self, config: &mut TunexConfig, id: &str, data_dir: &str) -> (r:
        Result<Option<RescanDecision>, Error>)
        ensures
            ({
                let target = switch_target_spec(id@);
                if target.len() > 0 && first_profile_with_id(old(config).profiles@, target) is None {
                    &&& r matches Err(e) && profile_gone(e, target)
                    &&& final(self).last_error is Some
                    &&& final(self).last_error->0@ == message_spec(r->Err_0)
                    &&& *final(config) == *old(config)
                    &&& final(self).folders == old(self).folders
                } else if old(config).active_profile@ == target {
                    &&& r == Ok::<Option<RescanDecision>, Error>(None)
                    &&& *final(config) == *old(config)
                    &&& final(self).folders == old(self).folders
                    &&& final(self).db_path == old(self).db_path
                } else {
                    &&& r matches Ok(Some(d))
                    &&& final(config).active_profile@ == target
                    &&& final(config).profiles == old(config).profiles
                    &&& final(config).library_roots == old(config).library_roots
                    &&& final(self).db_path@ == profile_db_path_spec(*final(config), data_dir@)
                    &&& final(self).folders@ == active_roots_spec(*final(config))
                    &&& final(self).last_error is None
                    &&& (!old(self).scanning && final(self).folders@.len() > 0 ==> (d matches RescanDecision::Start(roots) && roots@ == final(self).folders@))
                    &&& (old(self).scanning ==> d is Queued)
                }
            }),
    {
        let target = switch_target(id);
        if !target.as_str().is_empty() && find_profile(&config.profiles, target.as_str()).is_none() {
            let mut text: Vec<char> = Vec::new();
            push_all(&mut text, chars_of("profile ").as_slice());
            push_all(&mut text, chars_of(target.as_str()).as_slice());
            push_all(&mut text, chars_of(" is gone").as_slice());
            let e = Error::Config(string_of(text.as_slice()));
            self.last_error = Some(e.message());
            return Err(e);
        }
        if same_chars(
            chars_of(config.active_profile.as_str()).as_slice(),
            chars_of(target.as_str()).as_slice(),
        ) {
            return Ok(None);
        }
        config.active_profile = target;
        self.db_path = profile_db_path(config, data_dir);
        self.folders = active_roots(config);
        self.last_error = None;
        Ok(Some(self.rescan()))
    }
}

/// A profile created under `name` can be switched to by its id, unless
/// the id is longer than 40 characters or ends with a hyphen (a switch
/// re-sanitizes the id, which cuts or trims those): switching then names
/// exactly that id, and the new profile is the first one carrying it.
pub proof fn lemma_created_profile_is_switchable(
    profiles: Seq<LibraryProfile>,
    name: Seq<char>,
    created: LibraryProfile,
)
    requires
        trim(name).len() > 0,
        is_first_free(
            sanitize_profile_id_spec(trim(name)),
            '-',
            reserved_profile_ids(profiles),
            created.id@,
        ),
        created.id@.len() <= PROFILE_SLUG_MAX,
        created.id@.last() != '-',
    ensures
        switch_target_spec(created.id@) == created.id@,
        first_profile_with_id(profiles.push(created), created.id@) == Some(profiles.len() as int),
{
    let id = created.id@;
    let slug = sanitize_profile_id_spec(trim(name));
    let reserved = reserved_profile_ids(profiles);
    lemma_sanitized_shape(trim(name));
    let k = choose|k: nat|
        #![trigger numbered_name(slug, '-', k)]
        k >= 1 && id == numbered_name(slug, '-', k) && !reserved.contains(id) && forall|j: nat|
            1 <= j < k ==> reserved.contains(#[trigger] numbered_name(slug, '-', j));
    if k > 1 {
        lemma_decimal_digits(k);
        lemma_decimal_value(k);
        let head = slug.push('-');
        assert forall|i: int| 0 <= i < id.len() implies is_slug_char(#[trigger] id[i]) by {
            if i < slug.len() {
                assert(id[i] == slug[i]);
            } else if i == slug.len() {
                assert(id[i] == '-');
            } else {
                assert(id[i] == decimal(k)[i - head.len()]);
                assert(is_digit(decimal(k)[i - head.len()]));
            }
        }
        assert(id[0] == slug[0]);
    }
    assert(slug_shaped(id));
    reveal_strlit("default");
    assert(reserved[reserved.len() - 1] == "default"@);
    assert(id != "default"@);
    lemma_sanitize_fixes_clean_ids(id);
    let all = profiles.push(created);
    assert(all[profiles.len() as int].id@ == id);
    assert forall|j: int| 0 <= j < profiles.len() implies #[trigger] all[j].id@ != id by {
        assert(all[j] == profiles[j]);
        assert(reserved[j] == profiles[j].id@);
    }
    let w = choose|i: int|
        0 <= i < all.len() && all[i].id@ == id && forall|j: int|
            0 <= j < i ==> #[trigger] all[j].id@ != id;
    assert(w == profiles.len());
}

/// Tag values of one indexed track, as the tag editor reads them.
#[derive(Debug)]
pub struct TrackTags {
    pub title: Option<String>,
    pub artist: Option<String>,
    pub album: Option<String>,
    pub genre: Option<String>,
    pub composer: Option<String>,
    pub year: Option<i64>,
    pub track_number: Option<i64>,
    pub disc_number: Option<i64>,
}

/// A text tag as the editor shows it (empty when unknown).
pub open spec fn text_value(t: Option<String>) -> Seq<char> {
    match t {
        Some(s) => s@,
        None => Seq::empty(),
    }
}

/// A number tag as the editor shows it (empty when unknown).
pub open spec fn number_value(n: Option<i64>) -> Seq<char> {
    match n {
        Some(v) => signed_decimal(v as int),
        None => Seq::empty(),
    }
}

/// One tag field by key: `title`, `artist`, `album`, `genre`, `composer`,
/// `year`, `track`, `disc`; empty for unknown tracks and keys.
pub open spec fn track_value_spec(tags: Option<TrackTags>, key: Seq<char>) -> Seq<char> {
    match tags {
        None => Seq::empty(),
        Some(t) => if key == "title"@ {
            text_value(t.title)
        } else if key == "artist"@ {
            text_value(t.artist)
        } else if key == "album"@ {
            text_value(t.album)
        } else if key == "genre"@ {
            text_value(t.genre)
        } else if key == "composer"@ {
            text_value(t.composer)
        } else if key == "year"@ {
            number_value(t.year)
        } else if key == "track"@ {
            number_value(t.track_number)
        } else if key == "disc"@ {
            number_value(t.disc_number)
        } else {
            Seq::empty()
        },
    }
}

/// Each tag-editor field reads its own tag and no other: the text tags as
/// stored (empty when unknown), `year`, `track` and `disc` as signed
/// decimals of the year, track number and disc number; unknown tracks and
/// unknown keys read empty.
pub proof fn lemma_each_field_reads_its_own_tag(t: TrackTags, key: Seq<char>)
    ensures
        track_value_spec(Some(t), "title"@) == match t.title {
            Some(s) => s@,
            None => Seq::empty(),
        },
        track_value_spec(Some(t), "artist"@) == match t.artist {
            Some(s) => s@,
            None => Seq::empty(),
        },
        track_value_spec(Some(t), "album"@) == match t.album {
            Some(s) => s@,
            None => Seq::empty(),
        },
        track_value_spec(Some(t), "genre"@) == match t.genre {
            Some(s) => s@,
            None => Seq::empty(),
        },
        track_value_spec(Some(t), "composer"@) == match t.composer {
            Some(s) => s@,
            None => Seq::empty(),
        },
        track_value_spec(Some(t), "year"@) == match t.year {
            Some(v) => signed_decimal(v as int),
            None => Seq::empty(),
        },
        track_value_spec(Some(t), "track"@) == match t.track_number {
            Some(v) => signed_decimal(v as int),
            None => Seq::empty(),
        },
        track_value_spec(Some(t), "disc"@) == match t.disc_number {
            Some(v) => signed_decimal(v as int),
            None => Seq::empty(),
        },
        track_value_spec(None, key) == Seq::<char>::empty(),
{
    reveal_strlit("title");
    reveal_strlit("artist");
    reveal_strlit("album");
    reveal_strlit("genre");
    reveal_strlit("composer");
    reveal_strlit("year");
    reveal_strlit("track");
    reveal_strlit("disc");
    assert("artist"@.len() != "title"@.len());
    assert("album"@[0] != "title"@[0]);
    assert("album"@.len() != "artist"@.len());
    assert("genre"@[0] != "title"@[0]);
    assert("genre"@.len() != "artist"@.len());
    assert("genre"@[0] != "album"@[0]);
    assert("composer"@.len() != "title"@.len());
    assert("composer"@.len() != "artist"@.len());
    assert("composer"@.len() != "album"@.len());
    assert("composer"@.len() != "genre"@.len());
    assert("year"@.len() != "title"@.len());
    assert("year"@.len() != "artist"@.len());
    assert("year"@.len() != "album"@.len());
    assert("year"@.len() != "genre"@.len());
    assert("year"@.len() != "composer"@.len());
    assert("track"@[1] != "title"@[1]);
    assert("track"@.len() != "artist"@.len());
    assert("track"@[0] != "album"@[0]);
    assert("track"@[0] != "genre"@[0]);
    assert("track"@.len() != "composer"@.len());
    assert("track"@.len() != "year"@.len());
    assert("disc"@.len() != "title"@.len());
    assert("disc"@.len() != "artist"@.len());
    assert("disc"@.len() != "album"@.len());
    assert("disc"@.len() != "genre"@.len());
    assert("disc"@.len() != "composer"@.len());
    assert("disc"@[0] != "year"@[0]);
    assert("disc"@.len() != "track"@.len());
}

/// Changing one numeric tag changes only its own field: two tracks whose
/// disc numbers agree show the same disc field whatever their track
/// numbers, and likewise for the track field.
pub proof fn lemma_number_fields_are_independent(a: TrackTags, b: TrackTags)
    ensures
        a.disc_number == b.disc_number ==> track_value_spec(Some(a), "disc"@) == track_value_spec(
            Some(b),
            "disc"@,
        ),
        a.track_number == b.track_number ==> track_value_spec(Some(a), "track"@)
            == track_value_spec(Some(b), "track"@),
        a.year == b.year ==> track_value_spec(Some(a), "year"@) == track_value_spec(
            Some(b),
            "year"@,
        ),
{
    lemma_each_field_reads_its_own_tag(a, Seq::empty());
    lemma_each_field_reads_its_own_tag(b, Seq::empty());
}

fn text_of(t: &Option<String>) -> (s: String)
    ensures
        s@ == text_value(*t),
{
    match t {
        Some(v) => v.clone(),
        None => String::new(),
    }
}

fn number_of(n: Option<i64>) -> (s: String)
    ensures
        s@ == number_value(n),
{
    match n {
        Some(v) => i64_to_string(v),
        None => String::new(),
    }
}

fn key_is(key: &Vec<char>, name: &str) -> (b: bool)
    ensures
        b == (key@ == name@),
{
    same_chars(key.as_slice(), chars_of(name).as_slice())
}

/// One tag field for the editor (empty when unknown).
pub fn track_value(tags: Option<TrackTags>, key: &str) -> (v: String)
    ensures
        v@ == track_value_spec(tags, key@),
{
    let t = match &tags {
        None => return String::new(),
        Some(t) => t,
    };
    let k = chars_of(key);
    if key_is(&k, "title") {
        text_of(&t.title)
    } else if key_is(&k, "artist") {
        text_of(&t.artist)
    } else if key_is(&k, "album") {
        text_of(&t.album)
    } else if key_is(&k, "genre") {
        text_of(&t.genre)
    } else if key_is(&k, "composer") {
        text_of(&t.composer)
    } else if key_is(&k, "year") {
        number_of(t.year)
    } else if key_is(&k, "track") {
        number_of(t.track_number)
    } else if key_is(&k, "disc") {
        number_of(t.disc_number)
    } else {
        String::new()
    }
}

/// Profile rows as (id, name): the default first, then the named ones in
/// settings order.
pub open spec fn profile_rows_spec(profiles: Seq<LibraryProfile>) -> Seq<(Seq<char>, Seq<char>)> {
    seq![(Seq::<char>::empty(), "Default"@)] + profiles.map_values(
        |p: LibraryProfile| (p.id@, p.name@),
    )
}

/// Text pairs as plain characters.
pub open spec fn row_pairs(rows: Seq<(String, String)>) -> Seq<(Seq<char>, Seq<char>)> {
    rows.map_values(|r: (String, String)| (r.0@, r.1@))
}

/// Profile rows as (id, name), default first.
pub fn profiles(config: &TunexConfig) -> (rows: Vec<(String, String)>)
    ensures
        row_pairs(rows@) == profile_rows_spec(config.profiles@),
{
    let mut rows: Vec<(String, String)> = Vec::new();
    rows.push((String::new(), string_of(chars_of("Default").as_slice())));
    let mut i: usize = 0;
    while i < config.profiles.len()
        invariant
            i <= config.profiles@.len(),
            rows@.len() == i + 1,
            row_pairs(rows@) == profile_rows_spec(
                config.profiles@.take(i as int),
            ),
        decreases config.profiles@.len() - i,
    {
        let p = &config.profiles[i];
        let ghost before = rows@;
        rows.push((p.id.clone(), p.name.clone()));
        assert forall|j: int| 0 <= j < i + 2 implies #[trigger] row_pairs(rows@)[j] == profile_rows_spec(config.profiles@.take(i + 1))[j] by {
            if j < i + 1 {
                assert(rows@[j] == before[j]);
                assert(row_pairs(before)[j] == profile_rows_spec(
                    config.profiles@.take(i as int),
                )[j]);
            }
        }
        assert(row_pairs(rows@) =~= profile_rows_spec(
            config.profiles@.take(i + 1),
        ));
        i = i + 1;
    }
    assert(config.profiles@.take(config.profiles@.len() as int) =~= config.profiles@);
    rows
}

} // verus!
