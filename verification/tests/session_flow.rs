use vendor_ingest::errors::{ChannelError, ReadError, TransmissionResult};
use vendor_ingest::fields::CanonicalField;
use vendor_ingest::notify::NotificationSink;
use vendor_ingest::reader::FileTracker;
use vendor_ingest::session::UploadSession;

/// Stands in for the host's channel: records how often a connection was
/// attempted and answers with a fixed response.
struct MockChannel {
    attempts: usize,
    response: TransmissionResult,
}

impl MockChannel {
    fn new(response: TransmissionResult) -> MockChannel {
        MockChannel { attempts: 0, response }
    }

    fn send(&mut self, _wire: &[u8]) -> TransmissionResult {
        self.attempts += 1;
        self.response.clone()
    }
}

#[test]
fn end_to_end_submission_with_echoing_peer() {
    let mut session = UploadSession::new();

    // The operator selects a three-column file; its read completes.
    let token = session.begin_file_select();
    session.file_read_complete(
        token,
        "vendors.csv".to_string(),
        Ok(b"id,name,qty\n1,widget,5\n".to_vec()),
    );
    assert_eq!(session.column_headers().clone(), vec!["id", "name", "qty"]);

    session.set_mapping(CanonicalField::FileKey, "id".to_string());
    session.set_vendor_name("Acme".to_string());
    session.set_password("p@ss".to_string());

    let wire = session.submit().expect("a file is loaded");
    let text = String::from_utf8(wire.clone()).unwrap();
    assert!(text.contains("\"vendor_name\":\"Acme\""));
    assert!(text.contains("\"password\":\"p@ss\""));
    assert!(text.contains("\"File Key\":\"id\""));
    assert!(text.contains("\"Catalog\":\"\""));
    assert!(text.contains("\"file_bytes\":\"aWQsbmFtZSxxdHkKMSx3aWRnZXQsNQo=\""));

    let mut channel = MockChannel::new(TransmissionResult::Success("ok".to_string()));
    let result = channel.send(&wire);
    assert_eq!(channel.attempts, 1);
    assert_eq!(result, TransmissionResult::Success("ok".to_string()));

    let expiry = session.complete_submission(result);
    assert_eq!(session.notification().map(String::as_str), Some("ok"));

    // Success clears the session for the next vendor.
    assert!(session.submit().is_err());

    // The notification disappears when its time to live elapses.
    session.expire_notification(expiry);
    assert_eq!(session.notification(), None);
}

#[test]
fn submission_without_a_file_never_touches_the_channel() {
    let mut session = UploadSession::new();
    session.set_vendor_name("Acme".to_string());
    let mut channel = MockChannel::new(TransmissionResult::Success("ok".to_string()));

    if let Ok(wire) = session.submit() {
        channel.send(&wire);
    }

    assert!(session.submit().is_err());
    assert_eq!(channel.attempts, 0);
}

#[test]
fn failed_transmission_keeps_the_session_and_reports_it() {
    let mut session = UploadSession::new();
    let token = session.begin_file_select();
    session.file_read_complete(token, "v.csv".to_string(), Ok(b"a,b\n".to_vec()));
    session.set_vendor_name("Acme".to_string());

    let wire = session.submit().unwrap();
    let mut channel = MockChannel::new(TransmissionResult::Failure(ChannelError::Connect));
    let result = channel.send(&wire);

    session.complete_submission(result);
    assert_eq!(
        session.notification().map(String::as_str),
        Some("could not reach the backend endpoint")
    );
    // The file is still loaded, so the operator may retry.
    assert!(session.submit().is_ok());
}

#[test]
fn each_channel_error_has_its_own_text() {
    let errors = [
        ChannelError::Connect,
        ChannelError::Serialize,
        ChannelError::Write,
        ChannelError::Timeout,
    ];
    let mut texts: Vec<String> = Vec::new();
    for e in errors {
        let mut session = UploadSession::new();
        session.complete_submission(TransmissionResult::Failure(e));
        let text = session.notification().unwrap().clone();
        assert!(!text.is_empty());
        assert!(!texts.contains(&text));
        texts.push(text);
    }
}

#[test]
fn later_selection_supersedes_a_pending_read() {
    let mut tracker = FileTracker::new();

    // File A is selected, then file B before A's read completes.
    let token_a = tracker.begin_select();
    let token_b = tracker.begin_select();

    // B's read finishes first and is applied.
    tracker.complete_read(token_b, "b.csv".to_string(), Ok(b"x,y\n1,2\n".to_vec()));
    assert_eq!(tracker.headers().clone(), vec!["x", "y"]);

    // A's read completes late; it must be discarded.
    tracker.complete_read(token_a, "a.csv".to_string(), Ok(b"p,q,r\n".to_vec()));
    assert_eq!(tracker.headers().clone(), vec!["x", "y"]);
    assert_eq!(tracker.current_file().unwrap().name.as_str(), "b.csv");
    assert_eq!(tracker.current_file().unwrap().bytes, b"x,y\n1,2\n".to_vec());
}

#[test]
fn failed_read_clears_file_and_headers() {
    let mut tracker = FileTracker::new();
    let token = tracker.begin_select();
    tracker.complete_read(token, "v.csv".to_string(), Ok(b"a,b\n".to_vec()));
    assert_eq!(tracker.headers().len(), 2);

    let token = tracker.begin_select();
    tracker.complete_read(token, "v.csv".to_string(), Err(ReadError));
    assert!(tracker.current_file().is_none());
    assert!(tracker.headers().is_empty());
}

#[test]
fn unparseable_file_is_kept_with_empty_headers() {
    let mut tracker = FileTracker::new();
    let token = tracker.begin_select();
    tracker.complete_read(token, "odd.bin".to_string(), Ok(vec![0xff, 0xfe]));
    assert!(tracker.current_file().is_some());
    assert!(tracker.headers().is_empty());
}

#[test]
fn newer_show_invalidates_the_older_expiry_timer() {
    let mut sink = NotificationSink::new();

    // show("X", 3s) at t=0; show("Y", 1s) at t=0.5s.
    let token_x = sink.show("X".to_string());
    let token_y = sink.show("Y".to_string());
    assert_eq!(sink.current().map(String::as_str), Some("Y"));

    // Y's timer fires at t=1.5s: the sink hides.
    sink.expire(token_y);
    assert_eq!(sink.current(), None);

    // X's timer fires at t=3s: stale, nothing reappears.
    sink.expire(token_x);
    assert_eq!(sink.current(), None);
}

#[test]
fn stale_timer_cannot_clear_a_newer_message() {
    let mut sink = NotificationSink::new();
    let token_x = sink.show("X".to_string());
    let _token_y = sink.show("Y".to_string());

    // X's timer fires while Y is still visible: Y must stay.
    sink.expire(token_x);
    assert_eq!(sink.current().map(String::as_str), Some("Y"));
}

#[test]
fn vendor_key_travels_when_set() {
    let mut session = UploadSession::new();
    let token = session.begin_file_select();
    session.file_read_complete(token, "v.csv".to_string(), Ok(b"a,b\n".to_vec()));
    session.set_vendor_key(Some("key-7".to_string()));
    let text = String::from_utf8(session.submit().unwrap()).unwrap();
    assert!(text.contains("\"vendor_key\":\"key-7\""));
    session.set_vendor_key(None);
    let text = String::from_utf8(session.submit().unwrap()).unwrap();
    assert!(text.contains("\"vendor_key\":null"));
}

#[test]
fn clear_file_empties_the_selection() {
    let mut session = UploadSession::new();
    let token = session.begin_file_select();
    session.file_read_complete(token, "v.csv".to_string(), Ok(b"a,b\n".to_vec()));
    assert!(session.submit().is_ok());
    session.clear_file();
    assert!(session.submit().is_err());
    assert!(session.column_headers().is_empty());
}
