//! When a desktop toast is owed, and what it says. Delivery over the session
//! bus is the shell's business; these rules decide.

use vstd::prelude::*;
use crate::text::{chars_of, push_all, same_chars, string_of};

verus! {

/// Body line for a track toast: the known parts joined by " — ".
pub open spec fn track_body_spec(artist: Option<Seq<char>>, album: Option<Seq<char>>) -> Seq<char> {
    match (artist, album) {
        (Some(a), Some(b)) => a + " — "@ + b,
        (Some(a), None) => a,
        (None, Some(b)) => b,
        (None, None) => Seq::empty(),
    }
}

/// The character views of an optional text.
pub open spec fn opt_view(s: Option<&str>) -> Option<Seq<char>> {
    match s {
        Some(t) => Some(t@),
        None => None,
    }
}

/// Body line for a track toast: known parts joined, unknown parts omitted
/// (never fabricated — missing tags stay missing).
pub fn track_body(artist: Option<&str>, album: Option<&str>) -> (body: String)
    ensures
        body@ == track_body_spec(opt_view(artist), opt_view(album)),
{
    let mut out: Vec<char> = Vec::new();
    match (artist, album) {
        (Some(a), Some(b)) => {
            push_all(&mut out, chars_of(a).as_slice());
            push_all(&mut out, chars_of(" — ").as_slice());
            push_all(&mut out, chars_of(b).as_slice());
        },
        (Some(a), None) => {
            push_all(&mut out, chars_of(a).as_slice());
        },
        (None, Some(b)) => {
            push_all(&mut out, chars_of(b).as_slice());
        },
        (None, None) => {},
    }
    proof {
        match (artist, album) {
            (Some(a), Some(b)) => {
                assert(out@ =~= a@ + " — "@ + b@);
            },
            (Some(a), None) => {
                assert(out@ =~= a@);
            },
            (None, Some(b)) => {
                assert(out@ =~= b@);
            },
            (None, None) => {
                assert(out@ =~= Seq::<char>::empty());
            },
        }
    }
    string_of(out.as_slice())
}

/// A loaded track whose URI differs from the last toasted one, with toasts
/// on and the window unfocused.
pub open spec fn should_notify_spec(
    last_uri: Option<Seq<char>>,
    current_uri: Option<Seq<char>>,
    window_active: bool,
    enabled: bool,
    track_change: bool,
) -> bool {
    &&& enabled
    &&& track_change
    &&& !window_active
    &&& match (last_uri, current_uri) {
        (_, None) => false,
        (None, Some(_)) => true,
        (Some(last), Some(current)) => last != current,
    }
}

/// Whether the current track deserves a toast. Stops and repeats never
/// notify; a focused window never does either.
pub fn should_notify(
    last_uri: Option<&str>,
    current_uri: Option<&str>,
    window_active: bool,
    enabled: bool,
    track_change: bool,
) -> (b: bool)
    ensures
        b == should_notify_spec(
            opt_view(last_uri),
            opt_view(current_uri),
            window_active,
            enabled,
            track_change,
        ),
{
    if !enabled || !track_change || window_active {
        return false;
    }
    match (last_uri, current_uri) {
        (_, None) => false,
        (None, Some(_)) => true,
        (Some(last), Some(current)) => {
            let l = chars_of(last);
            let c = chars_of(current);
            !same_chars(l.as_slice(), c.as_slice())
        },
    }
}

/// Whether a playback error should toast (independent of window focus).
pub fn should_notify_error(enabled: bool, playback_errors: bool) -> (b: bool)
    ensures
        b == (enabled && playback_errors),
{
    enabled && playback_errors
}

/// A toast fires only on a real track change: resuming or repeating the
/// track last toasted never toasts, and neither does a stop.
pub proof fn lemma_only_new_tracks_toast(
    uri: Seq<char>,
    last: Option<Seq<char>>,
    window_active: bool,
    enabled: bool,
    track_change: bool,
)
    ensures
        !should_notify_spec(Some(uri), Some(uri), window_active, enabled, track_change),
        !should_notify_spec(last, None, window_active, enabled, track_change),
{
}

} // verus!
