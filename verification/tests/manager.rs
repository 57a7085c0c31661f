use s3_transfer::manager::DownloadSession;
use s3_transfer::manager::GetObjectFailure;
use s3_transfer::manager::ProgressEvent;
use s3_transfer::manager::ProgressSinkShape;
use s3_transfer::manager::SessionPhase;
use s3_transfer::manager::TransferError;
use s3_transfer::manager::drain_body;
use s3_transfer::manager::map_get_object_failure;
use s3_transfer::manager::prepare_transfer;

fn full_sink() -> ProgressSinkShape {
    ProgressSinkShape {
        has_set_total: true,
        has_on_progress: true,
        has_on_finished: true,
    }
}

fn no_sink() -> ProgressSinkShape {
    ProgressSinkShape {
        has_set_total: false,
        has_on_progress: false,
        has_on_finished: false,
    }
}

#[test]
fn test_map_no_such_key_to_not_found() {
    let mapped = map_get_object_failure(GetObjectFailure::NoSuchKey {
        message: "no such key".to_string(),
    });
    assert_eq!(
        mapped,
        TransferError::NotFound {
            message: "no such key".to_string()
        }
    );
}

#[test]
fn test_map_invalid_object_state() {
    let mapped = map_get_object_failure(GetObjectFailure::InvalidObjectState {
        message: "restore in progress".to_string(),
    });
    assert_eq!(
        mapped,
        TransferError::InvalidRemoteState {
            message: "restore in progress".to_string()
        }
    );
}

#[test]
fn test_map_service_and_transport_to_other() {
    let mapped = map_get_object_failure(GetObjectFailure::Service {
        message: "access denied".to_string(),
    });
    assert_eq!(
        mapped,
        TransferError::BackendOther {
            message: "access denied".to_string()
        }
    );
    let mapped = map_get_object_failure(GetObjectFailure::Transport {
        message: "connection reset".to_string(),
    });
    assert_eq!(
        mapped,
        TransferError::BackendOther {
            message: "connection reset".to_string()
        }
    );
}

#[test]
fn test_prepare_transfer_returns_typed_error() {
    let parsed = prepare_transfer("s3://my-bucket/path/to/object.txt").expect("valid S3 Uri");
    assert_eq!(parsed.bucket, "my-bucket");
    assert_eq!(parsed.key, "path/to/object.txt");

    let err = prepare_transfer("ftp://bucket/key").unwrap_err();
    assert_eq!(
        err,
        TransferError::InvalidAddress {
            message: "S3 Uri must start with s3:// or S3://".to_string()
        }
    );
}

#[test]
fn test_drain_body_success_trace_and_buffer() {
    let chunks = vec![b"abc".to_vec(), b"de".to_vec()];
    let mut buf: Vec<u8> = Vec::new();
    let (events, result) = drain_body(full_sink(), Some(5), &chunks, None, &mut buf);
    assert!(result.is_ok());
    assert_eq!(buf, b"abcde".to_vec());
    assert_eq!(
        events,
        vec![
            ProgressEvent::SetTotal(5),
            ProgressEvent::Progress(3),
            ProgressEvent::Progress(2),
            ProgressEvent::Finished,
        ]
    );
}

#[test]
fn test_drain_body_unknown_length_announces_zero() {
    let chunks = vec![b"xyz".to_vec()];
    let mut buf: Vec<u8> = Vec::new();
    let (events, result) = drain_body(full_sink(), None, &chunks, None, &mut buf);
    assert!(result.is_ok());
    assert_eq!(events[0], ProgressEvent::SetTotal(0));
}

#[test]
fn test_drain_body_without_callbacks_emits_nothing() {
    let chunks = vec![b"abc".to_vec(), b"de".to_vec()];
    let mut buf: Vec<u8> = Vec::new();
    let (events, result) = drain_body(no_sink(), Some(5), &chunks, None, &mut buf);
    assert!(result.is_ok());
    assert_eq!(buf, b"abcde".to_vec());
    assert_eq!(events, Vec::new());
}

#[test]
fn test_drain_body_appends_to_existing_buffer() {
    let chunks = vec![b"abc".to_vec(), b"de".to_vec()];
    let mut buf: Vec<u8> = b"xy".to_vec();
    let (_events, result) = drain_body(full_sink(), Some(5), &chunks, None, &mut buf);
    assert!(result.is_ok());
    assert_eq!(buf, b"xyabcde".to_vec());
}

#[test]
fn test_drain_body_failure_keeps_partial_bytes_no_finish() {
    let chunks = vec![b"abc".to_vec()];
    let mut buf: Vec<u8> = Vec::new();
    let (events, result) = drain_body(
        full_sink(),
        Some(10),
        &chunks,
        Some("connection reset"),
        &mut buf,
    );
    assert_eq!(
        result.unwrap_err(),
        TransferError::BackendOther {
            message: "connection reset".to_string()
        }
    );
    assert_eq!(buf, b"abc".to_vec());
    assert_eq!(
        events,
        vec![ProgressEvent::SetTotal(10), ProgressEvent::Progress(3)]
    );
}

#[test]
fn test_drain_body_empty_body() {
    let chunks: Vec<Vec<u8>> = Vec::new();
    let mut buf: Vec<u8> = Vec::new();
    let (events, result) = drain_body(full_sink(), Some(0), &chunks, None, &mut buf);
    assert!(result.is_ok());
    assert!(buf.is_empty());
    assert_eq!(
        events,
        vec![ProgressEvent::SetTotal(0), ProgressEvent::Finished]
    );
}

#[test]
fn test_drain_body_callbacks_are_independent() {
    let chunks = vec![b"abc".to_vec()];
    let set_only = ProgressSinkShape {
        has_set_total: true,
        has_on_progress: false,
        has_on_finished: false,
    };
    let mut buf: Vec<u8> = Vec::new();
    let (events, _) = drain_body(set_only, Some(3), &chunks, None, &mut buf);
    assert_eq!(events, vec![ProgressEvent::SetTotal(3)]);

    let finish_only = ProgressSinkShape {
        has_set_total: false,
        has_on_progress: false,
        has_on_finished: true,
    };
    let mut buf: Vec<u8> = Vec::new();
    let (events, _) = drain_body(finish_only, Some(3), &chunks, None, &mut buf);
    assert_eq!(events, vec![ProgressEvent::Finished]);
}

#[test]
fn test_session_phases_step_by_step() {
    let sink = ProgressSinkShape {
        has_set_total: false,
        has_on_progress: true,
        has_on_finished: false,
    };
    let mut session = DownloadSession::new(sink);
    assert_eq!(session.phase, SessionPhase::Requested);
    assert_eq!(session.announce_total(Some(4)), None);
    assert_eq!(session.phase, SessionPhase::Receiving);
    let mut buf: Vec<u8> = Vec::new();
    let ev = session.accept_chunk(&mut buf, &[7, 8, 9, 10]);
    assert_eq!(ev, Some(ProgressEvent::Progress(4)));
    assert_eq!(buf, vec![7, 8, 9, 10]);
    assert_eq!(session.complete(), None);
    assert_eq!(session.phase, SessionPhase::Completed);
}

#[test]
fn test_session_failure_phase() {
    let mut session = DownloadSession::new(full_sink());
    let ev = session.announce_total(None);
    assert_eq!(ev, Some(ProgressEvent::SetTotal(0)));
    let mut buf: Vec<u8> = Vec::new();
    session.accept_chunk(&mut buf, &[1]);
    session.fail();
    assert_eq!(session.phase, SessionPhase::Failed);
    assert_eq!(buf, vec![1]);
}
