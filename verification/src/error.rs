//! The one error vocabulary every layer reports in.

use vstd::prelude::*;
use crate::text::{chars_of, push_all, string_of};

verus! {

/// Errors producible anywhere in the player.
#[derive(Clone, Debug)]
pub enum Error {
    /// A filesystem path could not be read, written, or watched; `detail`
    /// is the operating system's own message.
    Io { path: String, detail: String },
    /// Configuration could not be loaded or validated.
    Config(String),
    /// Player subsystem failure.
    Player(String),
    /// Library-index failure, carried as its message.
    Database(String),
    /// Cancellable background work was asked to stop.
    Cancelled,
}

/// The human-readable line for `e`.
pub open spec fn message_spec(e: Error) -> Seq<char> {
    match e {
        Error::Io { path, detail } => "cannot access `"@ + path@ + "`: "@ + detail@,
        Error::Config(m) => "invalid configuration: "@ + m@,
        Error::Player(m) => "playback error: "@ + m@,
        Error::Database(m) => "database error: "@ + m@,
        Error::Cancelled => "operation cancelled"@,
    }
}

impl Error {
    /// The human-readable line shown to users and logs.
    pub fn message(&self) -> (text: String)
        ensures
            text@ == message_spec(*self),
    {
        let mut out: Vec<char> = Vec::new();
        match self {
            Error::Io { path, detail } => {
                push_all(&mut out, chars_of("cannot access `").as_slice());
                push_all(&mut out, chars_of(path.as_str()).as_slice());
                push_all(&mut out, chars_of("`: ").as_slice());
                push_all(&mut out, chars_of(detail.as_str()).as_slice());
            },
            Error::Config(m) => {
                push_all(&mut out, chars_of("invalid configuration: ").as_slice());
                push_all(&mut out, chars_of(m.as_str()).as_slice());
            },
            Error::Player(m) => {
                push_all(&mut out, chars_of("playback error: ").as_slice());
                push_all(&mut out, chars_of(m.as_str()).as_slice());
            },
            Error::Database(m) => {
                push_all(&mut out, chars_of("database error: ").as_slice());
                push_all(&mut out, chars_of(m.as_str()).as_slice());
            },
            Error::Cancelled => {
                push_all(&mut out, chars_of("operation cancelled").as_slice());
            },
        }
        proof {
            match self {
                Error::Io { path, detail } => {
                    assert(out@ =~= "cannot access `"@ + path@ + "`: "@ + detail@);
                },
                Error::Config(m) => {
                    assert(out@ =~= "invalid configuration: "@ + m@);
                },
                Error::Player(m) => {
                    assert(out@ =~= "playback error: "@ + m@);
                },
                Error::Database(m) => {
                    assert(out@ =~= "database error: "@ + m@);
                },
                Error::Cancelled => {
                    assert(out@ =~= "operation cancelled"@);
                },
            }
        }
        string_of(out.as_slice())
    }
}

} // verus!
