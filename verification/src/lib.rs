//! Quinte: a small mail server that answers JSON frames sent over a
//! websocket with the contents of a notmuch mail database.
//!
//! The library holds everything the server decides: which frames it
//! accepts, what it answers, how it reads what notmuch hands back and which
//! error it reports.  The program around it performs the network, database
//! and file work and feeds the results back in.

use vstd::prelude::*;
use vstd::utf8::decode_utf8;
use vstd::utf8::valid_utf8;

pub mod notmuch;
pub mod server;

verus! {

/// Everything that can go wrong while serving a client.
#[derive(Debug, Clone, PartialEq, Eq)]
pub enum Error {
    /// A string handed to notmuch contained a NUL byte.
    CString,
    /// A text frame was not a well-formed frame; holds the parser's report.
    FrameParse(String),
    /// Something went wrong inside the server itself.
    Internal(&'static str),
    /// notmuch could not run a search.
    NotmuchSearch,
    /// A frame carried a payload that clients are not meant to send.
    UnknownPayload,
    /// The websocket layer failed; holds its report.
    WebSocket(String),
    /// No message in the database has the requested message id.
    MessageIdNotFound(String),
    /// The file of a message (at the given path) could not be read.
    MailLoad(String),
}

impl Error {
    /// The error reported when the task that writes frames to the client
    /// has stopped taking them.
    pub fn sender_hung_up() -> (e: Error)
        ensures
            e matches Error::Internal(m) && m@ == "Sender task has hung up unexpectedly."@,
    {
        Error::Internal("Sender task has hung up unexpectedly.")
    }
}

/// The text that `String::from_utf8_lossy` makes of a byte sequence: the
/// bytes decoded as UTF-8, each invalid sequence replaced by U+FFFD.
pub uninterp spec fn utf8_lossy(bytes: Seq<u8>) -> Seq<char>;

/// Calls `String::from_utf8_lossy`.  Its result is named `utf8_lossy`; where
/// the bytes are valid UTF-8 the documentation promises their decoding, and
/// that is stated too.
#[verifier::external_body]
fn decode_lossy(bytes: &[u8]) -> (text: String)
    ensures
        text@ == utf8_lossy(bytes@),
        valid_utf8(bytes@) ==> text@ == decode_utf8(bytes@),
{
    String::from_utf8_lossy(bytes).into_owned()
}

/// The text that the derived `Debug` formatting (`format!("{:?}", e)`)
/// makes of an error.  The derived format is not promised to stay the same
/// across compiler versions, so nothing more is said of it.
pub uninterp spec fn error_debug_text(e: Error) -> Seq<char>;

/// Formats an error with its derived `Debug` implementation; the result is
/// named `error_debug_text`.
#[verifier::external_body]
pub(crate) fn debug_text(e: &Error) -> (text: String)
    ensures
        text@ == error_debug_text(*e),
{
    format!("{:?}", e)
}

/// What `c_string_to_owned` makes of the bytes of a C string (`None` for a
/// null pointer).
pub open spec fn owned_text(bytes: Option<Seq<u8>>) -> Option<Seq<char>> {
    match bytes {
        Some(b) => Some(utf8_lossy(b)),
        None => None,
    }
}

/// Turns a C string handed out by notmuch into an owned `String`.
///
/// `bytes` holds the bytes before the terminating NUL, or is `None` where
/// notmuch returned a null pointer.  Invalid UTF-8 is replaced, not refused.
pub fn c_string_to_owned(bytes: Option<&[u8]>) -> (text: Option<String>)
    ensures
        text is None <==> bytes is None,
        option_text(text) == owned_text(option_bytes(bytes)),
        bytes matches Some(b) ==> (valid_utf8(b@) ==> option_text(text) == Some(decode_utf8(b@))),
{
    match bytes {
        Some(b) => Some(decode_lossy(b)),
        None => None,
    }
}

/// The bytes behind an optional slice.
pub open spec fn option_bytes(bytes: Option<&[u8]>) -> Option<Seq<u8>> {
    match bytes {
        Some(b) => Some(b@),
        None => None,
    }
}

/// The characters of an optional string.
pub open spec fn option_text(text: Option<String>) -> Option<Seq<char>> {
    match text {
        Some(t) => Some(t@),
        None => None,
    }
}

} // verus!
