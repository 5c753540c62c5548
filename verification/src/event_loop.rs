//! The course of the thread that listens to the compositor.

use vstd::prelude::*;

use crate::wayland::WaylandUpdate;

verus! {

/// What the listening thread is about to try.
#[derive(Debug, Clone, Copy, PartialEq, Eq, Structural)]
pub enum Stage {
    Connect,
    InitRegistry,
    CreateEventLoop,
    InsertSource,
    BindToplevelInfo,
    Dispatch,
    Stopped,
}

impl Stage {
    /// The stage after one that has gone well. Dispatching goes on and on.
    pub open spec fn following(self) -> Stage {
        match self {
            Stage::Connect => Stage::InitRegistry,
            Stage::InitRegistry => Stage::CreateEventLoop,
            Stage::CreateEventLoop => Stage::InsertSource,
            Stage::InsertSource => Stage::BindToplevelInfo,
            Stage::BindToplevelInfo => Stage::Dispatch,
            Stage::Dispatch => Stage::Dispatch,
            Stage::Stopped => Stage::Stopped,
        }
    }

    /// The stage after this one, by whether this one has gone well.
    pub open spec fn after(self, succeeded: bool) -> Stage {
        if succeeded {
            self.following()
        } else {
            Stage::Stopped
        }
    }

    /// Whether the applet is told, after this stage, that no more updates come.
    pub open spec fn tells_end(self, succeeded: bool) -> bool {
        !succeeded && self != Stage::Stopped
    }

    /// Goes on to the next stage. The first failure stops the thread, and what is returned
    /// beside the stage is to be sent on.
    pub fn advance(self, succeeded: bool) -> (r: (Stage, Option<WaylandUpdate>))
        ensures
            r.0 == self.after(succeeded),
            r.1 == (if self.tells_end(succeeded) {
                Some(WaylandUpdate::Finished)
            } else {
                None
            }),
    {
        if !succeeded {
            return match self {
                Stage::Stopped => (Stage::Stopped, None),
                _ => (Stage::Stopped, Some(WaylandUpdate::Finished)),
            };
        }
        let next = match self {
            Stage::Connect => Stage::InitRegistry,
            Stage::InitRegistry => Stage::CreateEventLoop,
            Stage::CreateEventLoop => Stage::InsertSource,
            Stage::InsertSource => Stage::BindToplevelInfo,
            Stage::BindToplevelInfo => Stage::Dispatch,
            Stage::Dispatch => Stage::Dispatch,
            Stage::Stopped => Stage::Stopped,
        };
        (next, None)
    }
}

/// How the compositor is reached.
#[derive(Debug, Clone, Copy, PartialEq, Eq, Structural)]
pub enum ConnectionSource {
    /// An open socket, by its file descriptor.
    Socket(i32),
    /// The display that the environment names.
    Environment,
}

/// The number that decimal digits stand for.
pub open spec fn digits_value(digits: Seq<char>) -> int
    decreases digits.len(),
{
    if digits.len() == 0 {
        0
    } else {
        digits_value(digits.drop_last()) * 10 + (digits.last() as int - '0' as int)
    }
}

/// Whether `text` is made of decimal digits, of which it has at least one.
pub open spec fn is_digits(text: Seq<char>) -> bool {
    text.len() > 0 && forall|i: int|
        0 <= i < text.len() ==> '0' <= #[trigger] text[i] && text[i] <= '9'
}

/// The number that `text` writes: digits, with a sign before them or none.
pub open spec fn decimal_i32(text: Seq<char>) -> Option<i32> {
    let signed = text.len() > 0 && (text[0] == '-' || text[0] == '+');
    let digits = if signed { text.drop_first() } else { text };
    let value = if signed && text[0] == '-' { -digits_value(digits) } else { digits_value(digits) };
    if is_digits(digits) && i32::MIN <= value <= i32::MAX {
        Some(value as i32)
    } else {
        None
    }
}

/// Calls `str::parse` for an `i32`. Trusted: the number that the text writes in decimal digits,
/// with an optional sign before them; nothing where the text holds anything else or the number
/// does not fit.
#[verifier::external_body]
fn parse_i32(text: &str) -> (r: Option<i32>)
    ensures
        r == decimal_i32(text@),
{
    text.parse::<i32>().ok()
}

/// How the compositor is reached, by the text that names an open socket: the socket where the
/// text is a number, else the environment's display.
pub open spec fn source_of(socket: Option<String>) -> ConnectionSource {
    match socket {
        Some(text) => match decimal_i32(text@) {
            Some(fd) => ConnectionSource::Socket(fd),
            None => ConnectionSource::Environment,
        },
        None => ConnectionSource::Environment,
    }
}

/// How the compositor is reached, by the text that names an open socket.
pub fn connection_source(socket: &Option<String>) -> (r: ConnectionSource)
    ensures
        r == source_of(*socket),
{
    match socket {
        Some(text) => match parse_i32(text.as_str()) {
            Some(fd) => ConnectionSource::Socket(fd),
            None => ConnectionSource::Environment,
        },
        None => ConnectionSource::Environment,
    }
}

} // verus!
