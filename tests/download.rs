use local_llm::{
    is_success_status, DownloadAction, DownloadError, DownloadEvent, DownloadProgress,
    DownloadSession, Phase,
};

fn written_bytes(actions: &[DownloadAction]) -> Vec<u8> {
    let mut out = Vec::new();
    for a in actions {
        if let DownloadAction::WriteChunk { data } = a {
            out.extend_from_slice(data);
        }
    }
    out
}

fn run_events(events: Vec<DownloadEvent>) -> (DownloadSession, Vec<DownloadAction>) {
    let mut s = DownloadSession::new();
    let mut actions = Vec::new();
    for e in events {
        actions.push(s.step(e));
    }
    (s, actions)
}

fn body_events(chunks: &[&[u8]]) -> Vec<DownloadEvent> {
    chunks.iter().map(|c| DownloadEvent::Chunk { data: c.to_vec() }).collect()
}

#[test]
fn success_statuses() {
    assert!(is_success_status(200));
    assert!(is_success_status(206));
    assert!(is_success_status(299));
    assert!(!is_success_status(199));
    assert!(!is_success_status(300));
    assert!(!is_success_status(404));
    assert!(!is_success_status(500));
}

#[test]
fn completed_download_with_known_length_writes_body() {
    let chunks: [&[u8]; 3] = [b"GGUF", b"\x00\x01\x02", b"tail"];
    let mut events = vec![DownloadEvent::Response { status: 200, content_length: Some(11) }];
    events.extend(body_events(&chunks));
    events.push(DownloadEvent::EndOfBody);
    events.push(DownloadEvent::Stored);
    let (s, actions) = run_events(events);
    assert_eq!(written_bytes(&actions), b"GGUF\x00\x01\x02tail".to_vec());
    assert!(matches!(actions[0], DownloadAction::CreatePartialFile));
    assert!(matches!(actions[4], DownloadAction::CommitModel));
    assert!(matches!(actions[5], DownloadAction::Nothing));
    assert_eq!(s.phase, Phase::Completed);
    assert_eq!(s.outcome(), Some(Ok(())));
    assert_eq!(s.progress.total_size(), 11);
    assert_eq!(s.progress.downloaded_bytes(), 11);
}

#[test]
fn completed_download_with_unknown_length_writes_body() {
    let chunks: [&[u8]; 2] = [b"abc", b"defg"];
    let mut events = vec![DownloadEvent::Response { status: 200, content_length: None }];
    events.extend(body_events(&chunks));
    events.push(DownloadEvent::EndOfBody);
    events.push(DownloadEvent::Stored);
    let (s, actions) = run_events(events);
    assert_eq!(written_bytes(&actions), b"abcdefg".to_vec());
    assert_eq!(s.outcome(), Some(Ok(())));
    assert_eq!(s.progress.total_size, 0);
    assert_eq!(s.progress.downloaded_bytes, 7);
}

#[test]
fn empty_body_completes() {
    let (s, actions) = run_events(vec![
        DownloadEvent::Response { status: 200, content_length: Some(0) },
        DownloadEvent::EndOfBody,
        DownloadEvent::Stored,
    ]);
    assert!(written_bytes(&actions).is_empty());
    assert_eq!(s.outcome(), Some(Ok(())));
}

#[test]
fn progress_is_monotone_and_clamped() {
    let mut s = DownloadSession::new();
    s.step(DownloadEvent::Response { status: 200, content_length: Some(10) });
    let mut last = 0;
    for len in [4usize, 3, 5, 2] {
        s.step(DownloadEvent::Chunk { data: vec![7u8; len] });
        let now = s.progress.downloaded_bytes;
        assert!(now >= last);
        assert!(now <= 10);
        last = now;
    }
    assert_eq!(last, 10);
}

#[test]
fn progress_advance_exact_values() {
    let mut p = DownloadProgress::new(100);
    p.advance(30);
    assert_eq!(p.downloaded_bytes, 30);
    p.advance(80);
    assert_eq!(p.downloaded_bytes, 100);
    let mut q = DownloadProgress::new(0);
    q.advance(30);
    q.advance(80);
    assert_eq!(q.downloaded_bytes, 110);
    q.advance(u64::MAX);
    assert_eq!(q.downloaded_bytes, u64::MAX);
}

#[test]
fn failed_status_aborts_and_never_commits() {
    let mut events = vec![DownloadEvent::Response { status: 404, content_length: Some(5) }];
    events.extend(body_events(&[b"nope!"]));
    events.push(DownloadEvent::EndOfBody);
    events.push(DownloadEvent::Stored);
    let (s, actions) = run_events(events);
    assert!(matches!(
        actions[0],
        DownloadAction::Abort { error: DownloadError::HttpStatus { status: 404 } }
    ));
    assert!(!actions.iter().any(|a| matches!(a, DownloadAction::CommitModel)));
    assert!(written_bytes(&actions).is_empty());
    assert_eq!(s.outcome(), Some(Err(DownloadError::HttpStatus { status: 404 })));
}

#[test]
fn network_failure_mid_body() {
    let (s, actions) = run_events(vec![
        DownloadEvent::Response { status: 200, content_length: None },
        DownloadEvent::Chunk { data: b"ab".to_vec() },
        DownloadEvent::NetworkFailed,
        DownloadEvent::EndOfBody,
    ]);
    assert!(matches!(actions[2], DownloadAction::Abort { error: DownloadError::Network }));
    assert!(matches!(actions[3], DownloadAction::Nothing));
    assert_eq!(s.outcome(), Some(Err(DownloadError::Network)));
}

#[test]
fn io_failure_before_response() {
    let (s, actions) = run_events(vec![DownloadEvent::IoFailed]);
    assert!(matches!(actions[0], DownloadAction::Abort { error: DownloadError::Io }));
    assert_eq!(s.phase, Phase::Failed { error: DownloadError::Io });
}

#[test]
fn rename_failure_fails_download() {
    let (s, actions) = run_events(vec![
        DownloadEvent::Response { status: 200, content_length: None },
        DownloadEvent::EndOfBody,
        DownloadEvent::IoFailed,
    ]);
    assert!(matches!(actions[1], DownloadAction::CommitModel));
    assert!(matches!(actions[2], DownloadAction::Abort { error: DownloadError::Io }));
    assert_eq!(s.outcome(), Some(Err(DownloadError::Io)));
}

#[test]
fn session_runs_until_it_ends() {
    let (s, actions) = run_events(vec![
        DownloadEvent::Chunk { data: b"early".to_vec() },
        DownloadEvent::Response { status: 201, content_length: None },
    ]);
    assert!(matches!(actions[0], DownloadAction::Nothing));
    assert!(matches!(actions[1], DownloadAction::CreatePartialFile));
    assert_eq!(s.phase, Phase::Receiving);
    assert_eq!(s.outcome(), None);
}

#[test]
fn download_error_messages() {
    assert_eq!(
        DownloadError::HttpStatus { status: 404 }.message(),
        "server answered with HTTP status 404"
    );
    assert_eq!(DownloadError::Network.message(), "network failure while downloading the model");
    assert_eq!(DownloadError::Io.message(), "could not write the model file");
}
