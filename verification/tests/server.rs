use quinte::notmuch::Message;
use quinte::server::load_reply;
use quinte::server::parse_failed;
use quinte::server::process_frame;
use quinte::server::processing_failed;
use quinte::server::react;
use quinte::server::search_reply;
use quinte::server::Incoming;
use quinte::server::QuinteFrame;
use quinte::server::QuintePayload;
use quinte::server::Reaction;
use quinte::server::Work;
use quinte::Error;

fn frame(cid: &str, payload: QuintePayload) -> QuinteFrame {
    QuinteFrame { cid: cid.to_string(), payload }
}

fn mail() -> Message {
    Message {
        content_type: None,
        date: 7,
        from: "a@x".to_string(),
        path: "/1".to_string(),
        subject: None,
        to: None,
    }
}

#[test]
fn greeting_frame() {
    assert_eq!(
        QuinteFrame::greeting(),
        frame(
            "quinte/server/1",
            QuintePayload::ServerGreeting { server: "quinte server".to_string(), protocol: 0 }
        )
    );
}

#[test]
fn error_frame() {
    assert_eq!(
        QuinteFrame::error("c1".to_string(), "boom".to_string()),
        frame("c1", QuintePayload::Error("boom".to_string()))
    );
}

#[test]
fn ping_is_answered_with_pong() {
    assert_eq!(
        process_frame(frame("p-1", QuintePayload::Ping)),
        Ok(Work::Reply(frame("p-1", QuintePayload::Pong)))
    );
}

#[test]
fn mail_search_asks_for_search() {
    assert_eq!(
        process_frame(frame("s-1", QuintePayload::MailSearch("tag:inbox".to_string()))),
        Ok(Work::SearchMail { cid: "s-1".to_string(), query: "tag:inbox".to_string() })
    );
}

#[test]
fn load_mail_asks_for_load() {
    assert_eq!(
        process_frame(frame("l-1", QuintePayload::LoadMail("id@host".to_string()))),
        Ok(Work::LoadMail { cid: "l-1".to_string(), message_id: "id@host".to_string() })
    );
}

#[test]
fn other_payloads_are_refused() {
    let refused = vec![
        QuintePayload::Pong,
        QuintePayload::Error("e".to_string()),
        QuintePayload::Mail("m".to_string()),
        QuintePayload::MailList(vec![mail()]),
        QuintePayload::ServerGreeting { server: "s".to_string(), protocol: 1 },
    ];
    for p in refused {
        assert_eq!(process_frame(frame("x", p)), Err(Error::UnknownPayload));
    }
}

#[test]
fn search_reply_lists_mails() {
    assert_eq!(
        search_reply("s-1".to_string(), Ok(vec![mail(), mail()])),
        Ok(frame("s-1", QuintePayload::MailList(vec![mail(), mail()])))
    );
    assert_eq!(search_reply("s-1".to_string(), Err(Error::NotmuchSearch)), Err(Error::NotmuchSearch));
}

#[test]
fn load_reply_sends_mail_text() {
    assert_eq!(
        load_reply("l-1".to_string(), Ok("body".to_string())),
        Ok(frame("l-1", QuintePayload::Mail("body".to_string())))
    );
    assert_eq!(
        load_reply("l-1".to_string(), Err(Error::MailLoad("/1".to_string()))),
        Err(Error::MailLoad("/1".to_string()))
    );
}

#[test]
fn processing_failure_frame() {
    assert_eq!(
        processing_failed("x-9".to_string(), &Error::UnknownPayload),
        frame("x-9", QuintePayload::Error("Error when processing frame: UnknownPayload".to_string()))
    );
}

#[test]
fn parse_failure_frame() {
    assert_eq!(
        parse_failed(&Error::FrameParse("expected value".to_string())),
        frame(
            "quinte/server/no_correlation_id",
            QuintePayload::Error("Failed to parse message: FrameParse(\"expected value\")".to_string())
        )
    );
}

#[test]
fn react_processes_frames() {
    let f = frame("p", QuintePayload::Ping);
    assert_eq!(react(Incoming::Text(Ok(f.clone()))), Reaction::Process(f));
}

#[test]
fn react_answers_unreadable_text() {
    assert_eq!(
        react(Incoming::Text(Err(Error::FrameParse("oops".to_string())))),
        Reaction::Send(frame(
            "quinte/server/no_correlation_id",
            QuintePayload::Error("Failed to parse message: FrameParse(\"oops\")".to_string())
        ))
    );
}

#[test]
fn react_ignores_the_rest() {
    assert_eq!(react(Incoming::Close), Reaction::Ignore);
    assert_eq!(react(Incoming::Unhandled), Reaction::Ignore);
    assert_eq!(react(Incoming::Failed), Reaction::Ignore);
}

#[test]
fn sender_hung_up_error() {
    assert_eq!(Error::sender_hung_up(), Error::Internal("Sender task has hung up unexpectedly."));
}

#[test]
fn every_answer_keeps_the_correlation_id() {
    let cid = "corr-42";
    let requests = vec![
        QuintePayload::Ping,
        QuintePayload::MailSearch("q".to_string()),
        QuintePayload::LoadMail("id".to_string()),
        QuintePayload::Pong,
    ];
    for p in requests {
        let answer = match process_frame(frame(cid, p)) {
            Ok(Work::Reply(f)) => f,
            Ok(Work::SearchMail { cid: c, .. }) => match search_reply(c.clone(), Err(Error::NotmuchSearch)) {
                Ok(f) => f,
                Err(e) => processing_failed(c, &e),
            },
            Ok(Work::LoadMail { cid: c, .. }) => load_reply(c, Ok("text".to_string())).unwrap(),
            Err(e) => processing_failed(cid.to_string(), &e),
        };
        assert_eq!(answer.cid, cid);
    }
}
