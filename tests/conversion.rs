use gotenberg::{Action, Conversion, Error, Event, Stage};

fn http_error() -> reqwest::Error {
    reqwest::Client::new().get("not a url").build().unwrap_err()
}

fn io_error() -> std::io::Error {
    std::io::Error::new(std::io::ErrorKind::BrokenPipe, "sink closed")
}

#[test]
fn success_streams_chunks_in_order() {
    let mut c = Conversion::new();
    let mut sink: Vec<u8> = Vec::new();
    assert!(matches!(c.step(Event::Responded(200)), Action::ReadChunk));
    for chunk in [b"AB".to_vec(), b"CD".to_vec(), b"EF".to_vec()] {
        match c.step(Event::Chunk(chunk)) {
            Action::Write(bytes) => sink.extend_from_slice(&bytes),
            _ => panic!("expected a write"),
        }
        assert!(matches!(c.step(Event::Written), Action::ReadChunk));
    }
    assert!(matches!(c.step(Event::BodyEnd), Action::Finish(Ok(()))));
    assert_eq!(sink, b"ABCDEF".to_vec());
    assert_eq!(c.stage(), Stage::Done);
}

#[test]
fn rejection_carries_status_and_text_and_writes_nothing() {
    let mut c = Conversion::new();
    assert!(matches!(c.step(Event::Responded(422)), Action::ReadRejection));
    assert_eq!(c.stage(), Stage::Rejected(422));
    match c.step(Event::RejectionText("invalid page range".to_string())) {
        Action::Finish(Err(Error::Gotenberg(status, text))) => {
            assert_eq!(status, 422);
            assert_eq!(text, "invalid page range");
        }
        _ => panic!("expected a rejection"),
    }
    assert_eq!(c.stage(), Stage::Done);
}

#[test]
fn unreadable_rejection_text_keeps_the_rejection() {
    let mut c = Conversion::new();
    assert!(matches!(c.step(Event::Responded(500)), Action::ReadRejection));
    match c.step(Event::RejectionTextFailed(http_error())) {
        Action::Finish(Err(Error::Gotenberg(status, text))) => {
            assert_eq!(status, 500);
            assert!(!text.is_empty());
        }
        _ => panic!("expected a rejection"),
    }
}

#[test]
fn sink_failure_after_one_write_stops() {
    let mut c = Conversion::new();
    let mut sink: Vec<u8> = Vec::new();
    assert!(matches!(c.step(Event::Responded(200)), Action::ReadChunk));
    match c.step(Event::Chunk(b"AB".to_vec())) {
        Action::Write(bytes) => sink.extend_from_slice(&bytes),
        _ => panic!("expected a write"),
    }
    assert!(matches!(c.step(Event::Written), Action::ReadChunk));
    assert!(matches!(c.step(Event::Chunk(b"CD".to_vec())), Action::Write(_)));
    assert!(matches!(c.step(Event::WriteFailed(io_error())), Action::Finish(Err(Error::Io(_)))));
    assert_eq!(sink, b"AB".to_vec());
    assert!(!c.expects(&Event::Written));
    assert!(!c.expects(&Event::Chunk(b"CD".to_vec())));
}

#[test]
fn send_failure_is_not_retried() {
    let mut c = Conversion::new();
    assert!(matches!(c.step(Event::SendFailed(http_error())), Action::Finish(Err(Error::Http(_)))));
    assert_eq!(c.stage(), Stage::Done);
    assert!(!c.expects(&Event::Responded(200)));
    assert!(!c.expects(&Event::SendFailed(http_error())));
}

#[test]
fn chunk_failure_is_an_http_error() {
    let mut c = Conversion::new();
    assert!(matches!(c.step(Event::Responded(204)), Action::ReadChunk));
    assert!(matches!(c.step(Event::ChunkFailed(http_error())), Action::Finish(Err(Error::Http(_)))));
}

#[test]
fn empty_body_succeeds_with_nothing_written() {
    let mut c = Conversion::new();
    assert!(matches!(c.step(Event::Responded(200)), Action::ReadChunk));
    assert!(matches!(c.step(Event::BodyEnd), Action::Finish(Ok(()))));
}

#[test]
fn status_bounds_of_success() {
    for (status, ok) in [(199u16, false), (200, true), (299, true), (300, false), (404, false)] {
        let mut c = Conversion::new();
        match c.step(Event::Responded(status)) {
            Action::ReadChunk => assert!(ok),
            Action::ReadRejection => assert!(!ok),
            _ => panic!("unexpected action"),
        }
    }
}

#[test]
fn each_stage_expects_its_events() {
    let mut c = Conversion::new();
    assert_eq!(c.stage(), Stage::Sending);
    assert!(c.expects(&Event::Responded(200)));
    assert!(!c.expects(&Event::BodyEnd));
    c.step(Event::Responded(200));
    assert!(c.expects(&Event::BodyEnd));
    assert!(c.expects(&Event::Chunk(vec![1])));
    assert!(!c.expects(&Event::Written));
    c.step(Event::Chunk(vec![1]));
    assert_eq!(c.stage(), Stage::Writing);
    assert!(c.expects(&Event::Written));
    assert!(c.expects(&Event::WriteFailed(io_error())));
    assert!(!c.expects(&Event::BodyEnd));
}
