use vstd::prelude::*;

use crate::c_string_to_owned;
use crate::option_text;
use crate::owned_text;
use crate::utf8_lossy;

verus! {

/// One mail as the server reports it to clients.
#[derive(Debug, Clone, PartialEq, Eq)]
pub struct Message {
    pub content_type: Option<String>,
    pub date: i64,
    pub from: String,
    pub path: String,
    pub subject: Option<String>,
    pub to: Option<String>,
}

/// A `Message` with its strings taken as character sequences.
pub struct MessageView {
    pub content_type: Option<Seq<char>>,
    pub date: i64,
    pub from: Seq<char>,
    pub path: Seq<char>,
    pub subject: Option<Seq<char>>,
    pub to: Option<Seq<char>>,
}

impl View for Message {
    type V = MessageView;

    open spec fn view(&self) -> MessageView {
        MessageView {
            content_type: option_text(self.content_type),
            date: self.date,
            from: self.from@,
            path: self.path@,
            subject: option_text(self.subject),
            to: option_text(self.to),
        }
    }
}

/// What notmuch hands out about one message: the raw bytes of each header
/// it was asked for (`None` where it returned a null pointer), the date, and
/// the bytes of the file name.
#[derive(Debug, Clone, PartialEq, Eq)]
pub struct MessageHeaders {
    pub content_type: Option<Vec<u8>>,
    pub date: i64,
    pub from: Option<Vec<u8>>,
    pub filename: Option<Vec<u8>>,
    pub subject: Option<Vec<u8>>,
    pub to: Option<Vec<u8>>,
}

/// `MessageHeaders` with its byte vectors taken as sequences.
pub struct HeadersView {
    pub content_type: Option<Seq<u8>>,
    pub date: i64,
    pub from: Option<Seq<u8>>,
    pub filename: Option<Seq<u8>>,
    pub subject: Option<Seq<u8>>,
    pub to: Option<Seq<u8>>,
}

/// The bytes of an optional byte vector.
pub open spec fn opt_bytes(v: Option<Vec<u8>>) -> Option<Seq<u8>> {
    match v {
        Some(b) => Some(b@),
        None => None,
    }
}

impl View for MessageHeaders {
    type V = HeadersView;

    open spec fn view(&self) -> HeadersView {
        HeadersView {
            content_type: opt_bytes(self.content_type),
            date: self.date,
            from: opt_bytes(self.from),
            filename: opt_bytes(self.filename),
            subject: opt_bytes(self.subject),
            to: opt_bytes(self.to),
        }
    }
}

/// A message can be reported only if notmuch gave both its sender and its
/// file name.
pub open spec fn is_complete(h: HeadersView) -> bool {
    h.from is Some && h.filename is Some
}

/// The message reported for the headers `h`.
pub open spec fn message_of(h: HeadersView) -> MessageView {
    MessageView {
        content_type: owned_text(h.content_type),
        date: h.date,
        from: utf8_lossy(h.from->0),
        path: utf8_lossy(h.filename->0),
        subject: owned_text(h.subject),
        to: owned_text(h.to),
    }
}

/// A reported message keeps every header notmuch gave, whole: the sender
/// and the path are the decoding of all the bytes of the From header and of
/// the file name, and the content type, subject and recipients are absent
/// exactly when notmuch gave none, else the decoding of all their bytes.
pub proof fn message_keeps_every_header(h: HeadersView)
    requires
        is_complete(h),
    ensures
        message_of(h).from == utf8_lossy(h.from->0),
        message_of(h).path == utf8_lossy(h.filename->0),
        message_of(h).date == h.date,
        message_of(h).content_type is None <==> h.content_type is None,
        message_of(h).subject is None <==> h.subject is None,
        message_of(h).to is None <==> h.to is None,
        h.content_type matches Some(b) ==> message_of(h).content_type == Some(utf8_lossy(b)),
        h.subject matches Some(b) ==> message_of(h).subject == Some(utf8_lossy(b)),
        h.to matches Some(b) ==> message_of(h).to == Some(utf8_lossy(b)),
{
}

/// The bytes behind an optional byte vector, borrowed.
fn as_bytes(v: &Option<Vec<u8>>) -> (r: Option<&[u8]>)
    ensures
        match r {
            Some(b) => v matches Some(w) && b@ == w@,
            None => v is None,
        },
{
    match v {
        Some(w) => Some(w.as_slice()),
        None => None,
    }
}

/// Text of an optional header.
fn header_text(v: &Option<Vec<u8>>) -> (r: Option<String>)
    ensures
        option_text(r) == owned_text(opt_bytes(*v)),
{
    c_string_to_owned(as_bytes(v))
}

/// Text of a header that must be present.
fn required_text(v: &Option<Vec<u8>>) -> (r: String)
    requires
        v is Some,
    ensures
        r@ == utf8_lossy(v->0@),
{
    match c_string_to_owned(as_bytes(v)) {
        Some(t) => t,
        None => {
            assert(false);
            String::new()
        },
    }
}

impl Message {
    /// Builds the message that notmuch described by `headers`.  A message
    /// without a sender or a file name cannot be reported.
    pub fn from_headers(headers: &MessageHeaders) -> (m: Message)
        requires
            is_complete(headers@),
        ensures
            m@ == message_of(headers@),
            m.from@ == utf8_lossy(headers.from->0@),
            m.path@ == utf8_lossy(headers.filename->0@),
            m.date == headers.date,
            m.content_type is None <==> headers.content_type is None,
            m.subject is None <==> headers.subject is None,
            m.to is None <==> headers.to is None,
            headers.content_type matches Some(b) ==> m.content_type->0@ == utf8_lossy(b@),
            headers.subject matches Some(b) ==> m.subject->0@ == utf8_lossy(b@),
            headers.to matches Some(b) ==> m.to->0@ == utf8_lossy(b@),
    {
        Message {
            content_type: header_text(&headers.content_type),
            date: headers.date,
            from: required_text(&headers.from),
            path: required_text(&headers.filename),
            subject: header_text(&headers.subject),
            to: header_text(&headers.to),
        }
    }
}

/// Every result of a search can be reported as a message.
pub open spec fn all_complete(rows: Seq<HeadersView>) -> bool {
    forall|i: int| 0 <= i < rows.len() ==> #[trigger] is_complete(rows[i])
}

/// The views of a list of messages.
pub open spec fn messages_view(v: Seq<Message>) -> Seq<MessageView> {
    v.map_values(|m: Message| m@)
}

/// The results of one search, read one message at a time.
pub struct MessageSearchResult {
    rows: Vec<MessageHeaders>,
    position: usize,
}

impl MessageSearchResult {
    #[verifier::type_invariant]
    spec fn position_in_bounds(self) -> bool {
        self.position <= self.rows@.len()
    }

    /// The headers of the messages that are yet to be read, in order.
    pub closed spec fn remaining(self) -> Seq<HeadersView> {
        self.rows@.subrange(self.position as int, self.rows@.len() as int).map_values(
            |h: MessageHeaders| h@,
        )
    }

    /// The results of a search that found the messages described by `rows`,
    /// in the order notmuch gave them.
    pub fn new(rows: Vec<MessageHeaders>) -> (r: MessageSearchResult)
        ensures
            r.remaining() == rows@.map_values(|h: MessageHeaders| h@),
    {
        let r = MessageSearchResult { rows, position: 0 };
        assert(r.rows@.subrange(0, r.rows@.len() as int) =~= r.rows@);
        r
    }

    /// The number of messages yet to be read.
    pub fn len_remaining(&self) -> (n: usize)
        ensures
            n == self.remaining().len(),
    {
        proof {
            use_type_invariant(self);
        }
        self.rows.len() - self.position
    }

    /// Reads the next message, or gives `None` once all have been read.
    pub fn next(&mut self) -> (m: Option<Message>)
        requires
            old(self).remaining().len() > 0 ==> is_complete(old(self).remaining()[0]),
        ensures
            old(self).remaining().len() == 0 ==> m is None && final(self).remaining()
                == old(self).remaining(),
            old(self).remaining().len() > 0 ==> (m matches Some(msg) && msg@ == message_of(
                old(self).remaining()[0],
            ) && final(self).remaining() == old(self).remaining().drop_first()),
    {
        proof {
            use_type_invariant(&*self);
        }
        if self.position < self.rows.len() {
            let ghost before = self.remaining();
            assert(before[0] == self.rows@[self.position as int]@);
            let m = Message::from_headers(&self.rows[self.position]);
            self.position = self.position + 1;
            assert(self.remaining() =~= before.drop_first());
            Some(m)
        } else {
            None
        }
    }

    /// Reads, with `next`, every message not read yet, in order; afterwards
    /// none is left.
    pub fn read_all(&mut self) -> (mails: Vec<Message>)
        requires
            all_complete(old(self).remaining()),
        ensures
            messages_view(mails@) == old(self).remaining().map_values(
                |h: HeadersView| message_of(h),
            ),
            final(self).remaining().len() == 0,
    {
        let ghost all = self.remaining().map_values(|h: HeadersView| message_of(h));
        let mut mails: Vec<Message> = Vec::new();
        while self.len_remaining() > 0
            invariant
                all_complete(self.remaining()),
                messages_view(mails@) + self.remaining().map_values(
                    |h: HeadersView| message_of(h),
                ) == all,
            decreases self.remaining().len(),
        {
            let ghost before = self.remaining();
            match self.next() {
                Some(m) => {
                    assert(all_complete(self.remaining())) by {
                        assert forall|i: int| 0 <= i < self.remaining().len() implies
                            #[trigger] is_complete(self.remaining()[i]) by {
                            assert(self.remaining()[i] == before[i + 1]);
                        }
                    }
                    let ghost old_mails = mails@;
                    mails.push(m);
                    assert(messages_view(mails@) =~= messages_view(old_mails).push(m@));
                    assert(before.map_values(|h: HeadersView| message_of(h)) =~= seq![
                        message_of(before[0])] + self.remaining().map_values(
                        |h: HeadersView| message_of(h),
                    ));
                    assert(messages_view(mails@) + self.remaining().map_values(
                        |h: HeadersView| message_of(h),
                    ) =~= messages_view(old_mails) + before.map_values(
                        |h: HeadersView| message_of(h),
                    ));
                },
                None => {},
            }
        }
        assert(messages_view(mails@) =~= all);
        mails
    }
}

} // verus!
