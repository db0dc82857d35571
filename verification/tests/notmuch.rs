use quinte::c_string_to_owned;
use quinte::notmuch::c_string_bytes;
use quinte::notmuch::find_message_outcome;
use quinte::notmuch::load_mail_outcome;
use quinte::notmuch::search_outcome;
use quinte::notmuch::status_ok;
use quinte::notmuch::Message;
use quinte::notmuch::MessageHeaders;
use quinte::notmuch::MessageSearchResult;
use quinte::notmuch::NotmuchError;
use quinte::notmuch::NulByte;
use quinte::server::mail_search;
use quinte::Error;

fn headers(from: &str, file: &str) -> MessageHeaders {
    MessageHeaders {
        content_type: Some(b"text/plain".to_vec()),
        date: 1_600_000_000,
        from: Some(from.as_bytes().to_vec()),
        filename: Some(file.as_bytes().to_vec()),
        subject: Some(b"Hello".to_vec()),
        to: None,
    }
}

fn message(from: &str, file: &str) -> Message {
    Message {
        content_type: Some("text/plain".to_string()),
        date: 1_600_000_000,
        from: from.to_string(),
        path: file.to_string(),
        subject: Some("Hello".to_string()),
        to: None,
    }
}

#[test]
fn null_c_string_is_none() {
    assert_eq!(c_string_to_owned(None), None);
}

#[test]
fn ascii_c_string_is_copied() {
    assert_eq!(c_string_to_owned(Some(b"Alice <alice@example.org>")), Some("Alice <alice@example.org>".to_string()));
}

#[test]
fn utf8_c_string_is_decoded() {
    assert_eq!(c_string_to_owned(Some("Grüße".as_bytes())), Some("Grüße".to_string()));
}

#[test]
fn invalid_utf8_is_replaced() {
    assert_eq!(c_string_to_owned(Some(&[b'a', 0xff, b'b'])), Some("a\u{FFFD}b".to_string()));
}

#[test]
fn empty_c_string_is_empty() {
    assert_eq!(c_string_to_owned(Some(b"")), Some(String::new()));
}

#[test]
fn c_string_bytes_accepts_plain_text() {
    assert_eq!(c_string_bytes("tag:inbox"), Ok(b"tag:inbox".to_vec()));
    assert_eq!(c_string_bytes(""), Ok(Vec::new()));
}

#[test]
fn c_string_bytes_refuses_nul() {
    assert_eq!(
        c_string_bytes("ab\0c\0"),
        Err(NulByte { position: 2, bytes: b"ab\0c\0".to_vec() })
    );
    assert_eq!(c_string_bytes("\0"), Err(NulByte { position: 0, bytes: vec![0] }));
}

#[test]
fn nul_byte_converts_to_errors() {
    let nul = NulByte { position: 1, bytes: vec![b'x', 0] };
    assert_eq!(Error::from(nul.clone()), Error::CString);
    assert_eq!(NotmuchError::from(nul.clone()), NotmuchError::FfiCString(nul));
}

#[test]
fn failed_to_open_uses_notmuch_message() {
    assert_eq!(
        NotmuchError::failed_to_open(Some(b"no such database")),
        NotmuchError::DbFailedToOpen("no such database".to_string())
    );
}

#[test]
fn failed_to_open_without_message() {
    assert_eq!(
        NotmuchError::failed_to_open(None),
        NotmuchError::DbFailedToOpen("No error message".to_string())
    );
}

#[test]
fn message_from_headers() {
    let h = MessageHeaders {
        content_type: None,
        date: -5,
        from: Some(b"bob@example.org".to_vec()),
        filename: Some(b"/mail/cur/1".to_vec()),
        subject: Some(vec![0xc3]),
        to: Some(b"carol@example.org".to_vec()),
    };
    assert_eq!(
        Message::from_headers(&h),
        Message {
            content_type: None,
            date: -5,
            from: "bob@example.org".to_string(),
            path: "/mail/cur/1".to_string(),
            subject: Some("\u{FFFD}".to_string()),
            to: Some("carol@example.org".to_string()),
        }
    );
}

#[test]
fn search_result_reads_in_order_and_stays_exhausted() {
    let mut r = MessageSearchResult::new(vec![headers("a@x", "/1"), headers("b@x", "/2")]);
    assert_eq!(r.len_remaining(), 2);
    assert_eq!(r.next(), Some(message("a@x", "/1")));
    assert_eq!(r.len_remaining(), 1);
    assert_eq!(r.next(), Some(message("b@x", "/2")));
    assert_eq!(r.next(), None);
    assert_eq!(r.next(), None);
    assert_eq!(r.len_remaining(), 0);
}

#[test]
fn mail_search_collects_every_message() {
    let search = search_outcome(0, Some(vec![headers("a@x", "/1"), headers("b@x", "/2"), headers("c@x", "/3")]));
    assert_eq!(
        mail_search(search),
        Ok(vec![message("a@x", "/1"), message("b@x", "/2"), message("c@x", "/3")])
    );
}

#[test]
fn mail_search_of_nothing_is_empty() {
    assert_eq!(mail_search(search_outcome(0, Some(Vec::new()))), Ok(Vec::new()));
}

#[test]
fn mail_search_passes_search_failure_on() {
    assert_eq!(mail_search(search_outcome(1, None)), Err(Error::NotmuchSearch));
    assert_eq!(mail_search(Err(Error::CString)), Err(Error::CString));
}

#[test]
fn find_message_outcome_reports_missing_id() {
    assert_eq!(
        find_message_outcome("abc@host", 0, None),
        Err(Error::MessageIdNotFound("abc@host".to_string()))
    );
}

#[test]
fn find_message_outcome_builds_message() {
    let h = headers("a@x", "/1");
    assert_eq!(find_message_outcome("id", 0, Some(&h)), Ok(message("a@x", "/1")));
}

#[test]
fn load_mail_outcome_reports_unreadable_file() {
    assert_eq!(
        load_mail_outcome(message("a@x", "/mail/1"), None),
        Err(Error::MailLoad("/mail/1".to_string()))
    );
    assert_eq!(
        load_mail_outcome(message("a@x", "/mail/1"), Some("Subject: hi\n\nbody".to_string())),
        Ok("Subject: hi\n\nbody".to_string())
    );
}

#[test]
fn read_all_reads_every_message_once_in_order() {
    let mut r = MessageSearchResult::new(vec![headers("a@x", "/1"), headers("b@x", "/2"), headers("a@x", "/1")]);
    assert_eq!(r.next(), Some(message("a@x", "/1")));
    assert_eq!(r.read_all(), vec![message("b@x", "/2"), message("a@x", "/1")]);
    assert_eq!(r.len_remaining(), 0);
    assert_eq!(r.read_all(), Vec::new());
}

#[test]
fn find_message_outcome_reports_failed_lookup() {
    let h = headers("a@x", "/1");
    assert_eq!(
        find_message_outcome("id@host", 5, Some(&h)),
        Err(Error::MessageIdNotFound("id@host".to_string()))
    );
}

#[test]
fn search_without_cursor_finds_nothing() {
    assert_eq!(mail_search(search_outcome(0, None)), Ok(Vec::new()));
}

#[test]
fn failed_search_status_is_search_error() {
    assert_eq!(
        mail_search(search_outcome(3, Some(vec![headers("a@x", "/1")]))),
        Err(Error::NotmuchSearch)
    );
}

#[test]
fn only_status_zero_is_success() {
    assert!(status_ok(0));
    assert!(!status_ok(1));
    assert!(!status_ok(u32::MAX));
}

#[test]
fn open_outcome_succeeds_on_success_status() {
    assert_eq!(NotmuchError::open_outcome(0, Some(b"ignored")), Ok(()));
}

#[test]
fn open_outcome_reports_failure() {
    assert_eq!(
        NotmuchError::open_outcome(2, Some(b"cannot open")),
        Err(NotmuchError::DbFailedToOpen("cannot open".to_string()))
    );
    assert_eq!(
        NotmuchError::open_outcome(2, None),
        Err(NotmuchError::DbFailedToOpen("No error message".to_string()))
    );
}
