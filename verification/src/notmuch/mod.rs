//! Reading what the notmuch mail database hands out.

use vstd::prelude::*;
use vstd::slice::slice_to_vec;
use vstd::string::StringSliceAdditionalSpecFns;
use vstd::std_specs::convert::FromSpecImpl;

use crate::c_string_to_owned;
use crate::utf8_lossy;
use crate::Error;

pub mod message;

pub use message::HeadersView;
pub use message::Message;
pub use message::MessageHeaders;
pub use message::MessageSearchResult;
pub use message::MessageView;
pub use message::all_complete;
pub use message::is_complete;
pub use message::messages_view;
pub use message::message_of;

verus! {

/// A string that cannot be handed to notmuch because it holds a NUL byte.
#[derive(Debug, Clone, PartialEq, Eq)]
pub struct NulByte {
    /// Index of the first NUL byte.
    pub position: usize,
    /// All bytes of the refused string.
    pub bytes: Vec<u8>,
}

/// Errors while opening the notmuch database.
#[derive(Debug, Clone, PartialEq, Eq)]
pub enum NotmuchError {
    /// The database path holds a NUL byte.
    FfiCString(NulByte),
    /// notmuch refused to open the database; holds its message.
    DbFailedToOpen(String),
}

/// `p` is the index of the first zero byte of `bytes`.
pub open spec fn is_first_nul(bytes: Seq<u8>, p: int) -> bool {
    &&& 0 <= p < bytes.len()
    &&& bytes[p] == 0
    &&& forall|i: int| 0 <= i < p ==> bytes[i] != 0
}

/// The bytes of `s` as notmuch takes them (to be followed by a terminating
/// NUL), or the refusal when `s` holds a NUL byte of its own.
pub fn c_string_bytes(s: &str) -> (r: Result<Vec<u8>, NulByte>)
    ensures
        r is Ok <==> !s.spec_bytes().contains(0u8),
        r matches Ok(v) ==> v@ == s.spec_bytes(),
        r matches Err(n) ==> is_first_nul(s.spec_bytes(), n.position as int) && n.bytes@
            == s.spec_bytes(),
{
    let bytes = s.as_bytes();
    let n = bytes.len();
    let mut i: usize = 0;
    while i < n
        invariant
            n == bytes@.len(),
            bytes@ == s.spec_bytes(),
            i <= n,
            forall|j: int| 0 <= j < i ==> bytes@[j] != 0,
        decreases n - i,
    {
        if bytes[i] == 0 {
            assert(bytes@.contains(bytes@[i as int]));
            return Err(NulByte { position: i, bytes: slice_to_vec(bytes) });
        }
        i = i + 1;
    }
    assert(!bytes@.contains(0u8));
    Ok(slice_to_vec(bytes))
}

impl From<NulByte> for Error {
    /// A string with a NUL byte that was meant for notmuch.
    fn from(_nul: NulByte) -> (e: Error) {
        Error::CString
    }
}

impl FromSpecImpl<NulByte> for Error {
    open spec fn obeys_from_spec() -> bool {
        true
    }

    open spec fn from_spec(v: NulByte) -> Error {
        Error::CString
    }
}

impl From<NulByte> for NotmuchError {
    fn from(nul: NulByte) -> (e: NotmuchError) {
        NotmuchError::FfiCString(nul)
    }
}

impl FromSpecImpl<NulByte> for NotmuchError {
    open spec fn obeys_from_spec() -> bool {
        true
    }

    open spec fn from_spec(v: NulByte) -> NotmuchError {
        NotmuchError::FfiCString(v)
    }
}

impl NotmuchError {
    /// The outcome of opening the database, given the status notmuch
    /// reported and the bytes of the message it left (`None` where it left
    /// none).
    pub fn open_outcome(status: u32, message: Option<&[u8]>) -> (r: Result<(), NotmuchError>)
        ensures
            status == NOTMUCH_STATUS_SUCCESS ==> r is Ok,
            status != NOTMUCH_STATUS_SUCCESS ==> (r matches Err(NotmuchError::DbFailedToOpen(m))
                && m@ == match message {
                Some(b) => utf8_lossy(b@),
                None => "No error message"@,
            }),
    {
        if status_ok(status) {
            Ok(())
        } else {
            Err(NotmuchError::failed_to_open(message))
        }
    }

    /// The error for a database that notmuch refused to open, given the
    /// bytes of the message notmuch left (`None` where it left none).
    pub fn failed_to_open(message: Option<&[u8]>) -> (e: NotmuchError)
        ensures
            e matches NotmuchError::DbFailedToOpen(m) && m@ == (match message {
                Some(b) => utf8_lossy(b@),
                None => "No error message"@,
            }),
    {
        match c_string_to_owned(message) {
            Some(m) => NotmuchError::DbFailedToOpen(m),
            None => NotmuchError::DbFailedToOpen("No error message".to_owned()),
        }
    }
}

/// The status notmuch reports for a call that succeeded.
pub const NOTMUCH_STATUS_SUCCESS: u32 = 0;

/// Whether notmuch reported success.
pub fn status_ok(status: u32) -> (ok: bool)
    ensures
        ok == (status == NOTMUCH_STATUS_SUCCESS),
{
    status == NOTMUCH_STATUS_SUCCESS
}

/// The search results, or the error, after notmuch was asked to run a
/// search: `status` is what it reported, and `rows` the headers of the
/// messages it found, in its order (`None` where it handed out no result
/// cursor, so there is nothing to read).
pub fn search_outcome(status: u32, rows: Option<Vec<MessageHeaders>>) -> (r: Result<
    MessageSearchResult,
    Error,
>)
    ensures
        status != NOTMUCH_STATUS_SUCCESS ==> r == Err::<MessageSearchResult, Error>(
            Error::NotmuchSearch,
        ),
        status == NOTMUCH_STATUS_SUCCESS ==> (r matches Ok(s) && s.remaining() == match rows {
            Some(v) => v@.map_values(|h: MessageHeaders| h@),
            None => Seq::<HeadersView>::empty(),
        }),
{
    if !status_ok(status) {
        return Err(Error::NotmuchSearch);
    }
    match rows {
        Some(v) => Ok(MessageSearchResult::new(v)),
        None => {
            let r = MessageSearchResult::new(Vec::new());
            assert(r.remaining() =~= Seq::<HeadersView>::empty());
            Ok(r)
        },
    }
}

/// The message looked up by `message_id`, given the status notmuch
/// reported and the headers of the message it returned (`None` where it
/// returned none).
pub fn find_message_outcome(
    message_id: &str,
    status: u32,
    found: Option<&MessageHeaders>,
) -> (r: Result<Message, Error>)
    requires
        status == NOTMUCH_STATUS_SUCCESS ==> (found matches Some(h) ==> is_complete(h@)),
    ensures
        status != NOTMUCH_STATUS_SUCCESS || found is None ==> (r matches Err(
            Error::MessageIdNotFound(id),
        ) && id@ == message_id@),
        status == NOTMUCH_STATUS_SUCCESS ==> (found matches Some(h) ==> (r matches Ok(m) && m@
            == message_of(h@))),
{
    if !status_ok(status) {
        return Err(Error::MessageIdNotFound(message_id.to_owned()));
    }
    match found {
        None => Err(Error::MessageIdNotFound(message_id.to_owned())),
        Some(h) => Ok(Message::from_headers(h)),
    }
}

/// The mail text of `message`, given what reading its file gave (`None`
/// where the file could not be read).
pub fn load_mail_outcome(message: Message, contents: Option<String>) -> (r: Result<String, Error>)
    ensures
        match contents {
            None => r == Err::<String, Error>(Error::MailLoad(message.path)),
            Some(c) => r == Ok::<String, Error>(c),
        },
{
    match contents {
        None => Err(Error::MailLoad(message.path)),
        Some(c) => Ok(c),
    }
}

} // verus!
