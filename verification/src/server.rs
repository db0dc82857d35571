//! The frames that client and server exchange, and what the server answers.
//!
//! A connection runs as follows: the server greets the client, then reads
//! text frames.  A frame that cannot be read as a frame is answered with an
//! error frame on the `quinte/server/no_correlation_id` correlation id.  A
//! frame is processed on its own: `Ping` is answered with `Pong`,
//! `MailSearch` with the list of matching mails, `LoadMail` with the text of
//! the mail; every answer, and every error frame sent when processing
//! fails, carries the correlation id of the frame it answers.

use vstd::prelude::*;
use vstd::string::StringExecFns;

use crate::notmuch::MessageSearchResult;
use crate::notmuch::all_complete;
use crate::notmuch::messages_view;
use crate::notmuch::message_of;
use crate::notmuch::HeadersView;
use crate::notmuch::Message;
use crate::notmuch::MessageView;
use crate::debug_text;
use crate::error_debug_text;
use crate::Error;

verus! {

/// What a frame carries.
#[derive(Debug, Clone, PartialEq, Eq)]
pub enum QuintePayload {
    Error(String),
    LoadMail(String),
    Mail(String),
    MailSearch(String),
    MailList(Vec<Message>),
    Ping,
    Pong,
    ServerGreeting { server: String, protocol: u32 },
}

/// One frame: a correlation id and a payload.
#[derive(Debug, Clone, PartialEq, Eq)]
pub struct QuinteFrame {
    pub cid: String,
    pub payload: QuintePayload,
}

/// A payload with its strings taken as character sequences.
pub enum PayloadView {
    Error(Seq<char>),
    LoadMail(Seq<char>),
    Mail(Seq<char>),
    MailSearch(Seq<char>),
    MailList(Seq<MessageView>),
    Ping,
    Pong,
    ServerGreeting { server: Seq<char>, protocol: u32 },
}

/// A frame with its strings taken as character sequences.
pub struct FrameView {
    pub cid: Seq<char>,
    pub payload: PayloadView,
}

impl View for QuintePayload {
    type V = PayloadView;

    open spec fn view(&self) -> PayloadView {
        match self {
            QuintePayload::Error(m) => PayloadView::Error(m@),
            QuintePayload::LoadMail(m) => PayloadView::LoadMail(m@),
            QuintePayload::Mail(m) => PayloadView::Mail(m@),
            QuintePayload::MailSearch(m) => PayloadView::MailSearch(m@),
            QuintePayload::MailList(v) => PayloadView::MailList(messages_view(v@)),
            QuintePayload::Ping => PayloadView::Ping,
            QuintePayload::Pong => PayloadView::Pong,
            QuintePayload::ServerGreeting { server, protocol } => PayloadView::ServerGreeting {
                server: server@,
                protocol: *protocol,
            },
        }
    }
}

impl View for QuinteFrame {
    type V = FrameView;

    open spec fn view(&self) -> FrameView {
        FrameView { cid: self.cid@, payload: self.payload@ }
    }
}

/// The error frame sent when processing the frame `cid` failed with an
/// error whose description is `detail`.
pub open spec fn failure_frame(cid: Seq<char>, detail: Seq<char>) -> FrameView {
    FrameView {
        cid,
        payload: PayloadView::Error("Error when processing frame: "@ + detail),
    }
}

/// The error frame sent for a text frame that could not be read as a
/// frame, where `detail` describes the parse error.
pub open spec fn parse_failure_frame(detail: Seq<char>) -> FrameView {
    FrameView {
        cid: "quinte/server/no_correlation_id"@,
        payload: PayloadView::Error("Failed to parse message: "@ + detail),
    }
}

impl QuinteFrame {
    /// An error frame on correlation id `cid`.
    pub fn error(cid: String, message: String) -> (f: QuinteFrame)
        ensures
            f.cid == cid,
            f.payload == QuintePayload::Error(message),
    {
        QuinteFrame { cid, payload: QuintePayload::Error(message) }
    }

    /// The frame the server sends first on every connection.
    pub fn greeting() -> (f: QuinteFrame)
        ensures
            f@ == (FrameView {
                cid: "quinte/server/1"@,
                payload: PayloadView::ServerGreeting { server: "quinte server"@, protocol: 0 },
            }),
    {
        QuinteFrame {
            cid: "quinte/server/1".to_owned(),
            payload: QuintePayload::ServerGreeting {
                server: "quinte server".to_owned(),
                protocol: 0,
            },
        }
    }
}

/// The error frame sent when processing the frame `cid` failed with
/// `error`.
pub fn processing_failed(cid: String, error: &Error) -> (f: QuinteFrame)
    ensures
        f@ == failure_frame(cid@, error_debug_text(*error)),
{
    let mut message = "Error when processing frame: ".to_owned();
    let detail = debug_text(error);
    message.append(detail.as_str());
    QuinteFrame::error(cid, message)
}

/// The error frame sent for a text frame that could not be read as a
/// frame, where reading it failed with `error`.
pub fn parse_failed(error: &Error) -> (f: QuinteFrame)
    ensures
        f@ == parse_failure_frame(error_debug_text(*error)),
{
    let mut message = "Failed to parse message: ".to_owned();
    let detail = debug_text(error);
    message.append(detail.as_str());
    QuinteFrame::error("quinte/server/no_correlation_id".to_owned(), message)
}

/// The answer on `cid` given the outcome of processing.
pub open spec fn spec_finish(cid: Seq<char>, outcome: Result<FrameView, Error>) -> FrameView {
    match outcome {
        Ok(g) => g,
        Err(e) => failure_frame(cid, error_debug_text(e)),
    }
}

/// The frame sent in answer to a processed frame on correlation id `cid`:
/// the answer itself where processing succeeded, else the error frame that
/// describes the error.
pub fn finish(cid: String, outcome: Result<QuinteFrame, Error>) -> (f: QuinteFrame)
    ensures
        match outcome {
            Ok(g) => f == g,
            Err(e) => f@ == failure_frame(cid@, error_debug_text(e)),
        },
        f@ == spec_finish(cid@, frame_result_view(outcome)),
{
    match outcome {
        Ok(g) => g,
        Err(e) => processing_failed(cid, &e),
    }
}

/// What processing a frame asks for next.
#[derive(Debug, Clone, PartialEq, Eq)]
pub enum Work {
    /// Send this frame back; nothing else is needed.
    Reply(QuinteFrame),
    /// Search the mail database for `query`, then answer on `cid`.
    SearchMail { cid: String, query: String },
    /// Load the mail with id `message_id`, then answer on `cid`.
    LoadMail { cid: String, message_id: String },
}

/// `Work` with its strings taken as character sequences.
pub enum WorkView {
    Reply(FrameView),
    SearchMail { cid: Seq<char>, query: Seq<char> },
    LoadMail { cid: Seq<char>, message_id: Seq<char> },
}

impl View for Work {
    type V = WorkView;

    open spec fn view(&self) -> WorkView {
        match self {
            Work::Reply(f) => WorkView::Reply(f@),
            Work::SearchMail { cid, query } => WorkView::SearchMail { cid: cid@, query: query@ },
            Work::LoadMail { cid, message_id } => WorkView::LoadMail {
                cid: cid@,
                message_id: message_id@,
            },
        }
    }
}

/// What processing the frame `f` asks for: clients may send `Ping`,
/// `MailSearch` and `LoadMail`; any other payload is refused.
pub open spec fn spec_process(f: FrameView) -> Result<WorkView, Error> {
    match f.payload {
        PayloadView::Ping => Ok(WorkView::Reply(FrameView { cid: f.cid, payload: PayloadView::Pong })),
        PayloadView::MailSearch(query) => Ok(WorkView::SearchMail { cid: f.cid, query }),
        PayloadView::LoadMail(message_id) => Ok(WorkView::LoadMail { cid: f.cid, message_id }),
        _ => Err(Error::UnknownPayload),
    }
}

/// The view of a result that carries work.
pub open spec fn work_result_view(r: Result<Work, Error>) -> Result<WorkView, Error> {
    match r {
        Ok(w) => Ok(w@),
        Err(e) => Err(e),
    }
}

/// The view of a result that carries a frame.
pub open spec fn frame_result_view(r: Result<QuinteFrame, Error>) -> Result<FrameView, Error> {
    match r {
        Ok(f) => Ok(f@),
        Err(e) => Err(e),
    }
}

/// The view of a result that carries a list of messages.
pub open spec fn messages_result_view(r: Result<Vec<Message>, Error>) -> Result<
    Seq<MessageView>,
    Error,
> {
    match r {
        Ok(v) => Ok(messages_view(v@)),
        Err(e) => Err(e),
    }
}

/// The view of a result that carries a text.
pub open spec fn text_result_view(r: Result<String, Error>) -> Result<Seq<char>, Error> {
    match r {
        Ok(t) => Ok(t@),
        Err(e) => Err(e),
    }
}

/// Starts processing a frame received from a client.
pub fn process_frame(frame: QuinteFrame) -> (work: Result<Work, Error>)
    ensures
        work_result_view(work) == spec_process(frame@),
        frame.payload matches QuintePayload::MailSearch(q) ==> work == Ok::<Work, Error>(
            Work::SearchMail { cid: frame.cid, query: q },
        ),
        frame.payload matches QuintePayload::LoadMail(id) ==> work == Ok::<Work, Error>(
            Work::LoadMail { cid: frame.cid, message_id: id },
        ),
        frame.payload is Ping ==> work == Ok::<Work, Error>(
            Work::Reply(QuinteFrame { cid: frame.cid, payload: QuintePayload::Pong }),
        ),
{
    match frame.payload {
        QuintePayload::Ping => Ok(Work::Reply(QuinteFrame { cid: frame.cid, payload: QuintePayload::Pong })),
        QuintePayload::MailSearch(query) => Ok(Work::SearchMail { cid: frame.cid, query }),
        QuintePayload::LoadMail(message_id) => Ok(Work::LoadMail { cid: frame.cid, message_id }),
        _ => Err(Error::UnknownPayload),
    }
}

/// The answer on `cid` to a mail search whose outcome is `mails`.
pub open spec fn spec_search_reply(cid: Seq<char>, mails: Result<Seq<MessageView>, Error>) -> Result<
    FrameView,
    Error,
> {
    match mails {
        Ok(v) => Ok(FrameView { cid, payload: PayloadView::MailList(v) }),
        Err(e) => Err(e),
    }
}

/// The answer on `cid` to a mail load whose outcome is `mail`.
pub open spec fn spec_load_reply(cid: Seq<char>, mail: Result<Seq<char>, Error>) -> Result<
    FrameView,
    Error,
> {
    match mail {
        Ok(t) => Ok(FrameView { cid, payload: PayloadView::Mail(t) }),
        Err(e) => Err(e),
    }
}

/// Finishes a `MailSearch` on correlation id `cid`, given the outcome of
/// the search.
pub fn search_reply(cid: String, mails: Result<Vec<Message>, Error>) -> (r: Result<
    QuinteFrame,
    Error,
>)
    ensures
        frame_result_view(r) == spec_search_reply(cid@, messages_result_view(mails)),
{
    match mails {
        Ok(v) => Ok(QuinteFrame { cid, payload: QuintePayload::MailList(v) }),
        Err(e) => Err(e),
    }
}

/// Finishes a `LoadMail` on correlation id `cid`, given the outcome of
/// loading the mail.
pub fn load_reply(cid: String, mail: Result<String, Error>) -> (r: Result<QuinteFrame, Error>)
    ensures
        frame_result_view(r) == spec_load_reply(cid@, text_result_view(mail)),
{
    match mail {
        Ok(t) => Ok(QuinteFrame { cid, payload: QuintePayload::Mail(t) }),
        Err(e) => Err(e),
    }
}

/// Reads every message that a search found, in order.  The error of a
/// search that could not run is passed on.
pub fn mail_search(search: Result<MessageSearchResult, Error>) -> (r: Result<Vec<Message>, Error>)
    requires
        search matches Ok(s) ==> all_complete(s.remaining()),
    ensures
        match search {
            Ok(s) => r matches Ok(v) && messages_view(v@) == s.remaining().map_values(
                |h: HeadersView| message_of(h),
            ),
            Err(e) => r == Err::<Vec<Message>, Error>(e),
        },
{
    match search {
        Err(e) => Err(e),
        Ok(s) => {
            let mut results = s;
            Ok(results.read_all())
        },
    }
}

/// What the server hears from a client.
#[derive(Debug, PartialEq, Eq)]
pub enum Incoming {
    /// A text message, read as a frame, or the error that reading it as
    /// one gave.
    Text(Result<QuinteFrame, Error>),
    /// The client closes the connection.
    Close,
    /// A message of a kind the server does not handle (binary, ping, ...).
    Unhandled,
    /// Receiving failed.
    Failed,
}

/// What the server does about what it heard.
#[derive(Debug, Clone, PartialEq, Eq)]
pub enum Reaction {
    /// Process this frame on its own.
    Process(QuinteFrame),
    /// Send this frame to the client.
    Send(QuinteFrame),
    /// Nothing to answer; the server only takes note.
    Ignore,
}

/// Decides what to do about one message heard from a client.
pub fn react(event: Incoming) -> (r: Reaction)
    ensures
        match event {
            Incoming::Text(Ok(f)) => r == Reaction::Process(f),
            Incoming::Text(Err(e)) => r matches Reaction::Send(g) && g@ == parse_failure_frame(
                error_debug_text(e),
            ),
            _ => r is Ignore,
        },
{
    match event {
        Incoming::Text(Ok(f)) => Reaction::Process(f),
        Incoming::Text(Err(e)) => Reaction::Send(parse_failed(&e)),
        _ => Reaction::Ignore,
    }
}

/// The frame finally sent in answer to `frame`, where a mail search would
/// end with `mails` and a mail load with `mail`.
pub open spec fn final_reply(
    frame: FrameView,
    mails: Result<Seq<MessageView>, Error>,
    mail: Result<Seq<char>, Error>,
) -> FrameView {
    match spec_process(frame) {
        Err(e) => spec_finish(frame.cid, Err(e)),
        Ok(WorkView::Reply(f)) => spec_finish(frame.cid, Ok(f)),
        Ok(WorkView::SearchMail { cid, query }) => spec_finish(
            frame.cid,
            spec_search_reply(cid, mails),
        ),
        Ok(WorkView::LoadMail { cid, message_id }) => spec_finish(
            frame.cid,
            spec_load_reply(cid, mail),
        ),
    }
}

/// A frame's answer, successful or not, carries the frame's correlation id.
pub proof fn reply_keeps_correlation_id(
    frame: FrameView,
    mails: Result<Seq<MessageView>, Error>,
    mail: Result<Seq<char>, Error>,
)
    ensures
        final_reply(frame, mails, mail).cid == frame.cid,
{
}

/// Only `Ping`, `MailSearch` and `LoadMail` frames are processed; a frame
/// with any other payload is refused as an unknown payload.
pub proof fn only_requests_are_processed(frame: FrameView)
    ensures
        spec_process(frame) is Ok <==> (frame.payload is Ping || frame.payload is MailSearch
            || frame.payload is LoadMail),
        spec_process(frame) is Err ==> spec_process(frame) == Err::<WorkView, Error>(
            Error::UnknownPayload,
        ),
{
}

/// A mail search goes to the database with the whole query of the frame,
/// exactly as the client sent it, and its answer is due on the frame's
/// correlation id.
pub proof fn search_uses_whole_query(frame: FrameView, query: Seq<char>)
    requires
        frame.payload == PayloadView::MailSearch(query),
    ensures
        spec_process(frame) matches Ok(WorkView::SearchMail { cid, query: q }) && cid
            == frame.cid && q == query,
{
}

/// A mail load looks up exactly the message id the client sent, and its
/// answer is due on the frame's correlation id.
pub proof fn load_uses_whole_message_id(frame: FrameView, message_id: Seq<char>)
    requires
        frame.payload == PayloadView::LoadMail(message_id),
    ensures
        spec_process(frame) matches Ok(WorkView::LoadMail { cid, message_id: id }) && cid
            == frame.cid && id == message_id,
{
}

/// Two frames that differ in their query (or message id) are sent to the
/// database as different searches (or lookups): nothing of what the client
/// asked for is dropped.
pub proof fn distinct_requests_stay_distinct(f1: FrameView, f2: FrameView)
    requires
        spec_process(f1) is Ok,
        spec_process(f2) is Ok,
        spec_process(f1) == spec_process(f2),
    ensures
        f1 == f2,
{
}

/// A `Ping` is answered with a `Pong` on the same correlation id.
pub proof fn ping_is_answered_with_pong(
    frame: FrameView,
    mails: Result<Seq<MessageView>, Error>,
    mail: Result<Seq<char>, Error>,
)
    requires
        frame.payload is Ping,
    ensures
        final_reply(frame, mails, mail) == (FrameView {
            cid: frame.cid,
            payload: PayloadView::Pong,
        }),
{
}

/// A search that ran is answered with one mail per message it found, in
/// the order of the search.
pub proof fn search_answers_every_result(
    frame: FrameView,
    rows: Seq<HeadersView>,
    mail: Result<Seq<char>, Error>,
)
    requires
        frame.payload is MailSearch,
    ensures
        final_reply(frame, Ok(rows.map_values(|h: HeadersView| message_of(h))), mail) == (
        FrameView {
            cid: frame.cid,
            payload: PayloadView::MailList(rows.map_values(|h: HeadersView| message_of(h))),
        }),
{
}

/// A loaded mail is answered with its text.
pub proof fn load_answers_mail_text(
    frame: FrameView,
    mails: Result<Seq<MessageView>, Error>,
    text: Seq<char>,
)
    requires
        frame.payload is LoadMail,
    ensures
        final_reply(frame, mails, Ok(text)) == (FrameView {
            cid: frame.cid,
            payload: PayloadView::Mail(text),
        }),
{
}

/// When processing fails (a refused payload, a failed search or a failed
/// load), the answer is the error frame that describes the error.
pub proof fn failure_is_answered_with_error_frame(
    frame: FrameView,
    mails: Result<Seq<MessageView>, Error>,
    mail: Result<Seq<char>, Error>,
)
    ensures
        spec_process(frame) is Err ==> final_reply(frame, mails, mail) == failure_frame(
            frame.cid,
            error_debug_text(Error::UnknownPayload),
        ),
        frame.payload is MailSearch ==> (mails matches Err(e) ==> final_reply(frame, mails, mail)
            == failure_frame(frame.cid, error_debug_text(e))),
        frame.payload is LoadMail ==> (mail matches Err(e) ==> final_reply(frame, mails, mail)
            == failure_frame(frame.cid, error_debug_text(e))),
{
}

} // verus!
