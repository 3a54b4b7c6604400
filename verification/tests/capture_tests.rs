use fssh::capture::{CaptureMachine, CaptureState, ChunkAction};

#[test]
fn without_candidate_everything_is_forwarded() {
    let mut m = CaptureMachine::new(None);
    assert_eq!(m.current_state(), CaptureState::Done);
    let act = m.step(&b"password: ".to_vec());
    assert!(matches!(act, ChunkAction::Forward));
    assert_eq!(m.current_state(), CaptureState::Done);
}

#[test]
fn prompt_consumes_candidate_with_line_feed() {
    let mut m = CaptureMachine::new(Some(b"pw".to_vec()));
    assert_eq!(m.current_state(), CaptureState::AwaitingPrompt);
    let act = m.step(&b"user@host's password: ".to_vec());
    assert!(matches!(act, ChunkAction::Inject(ref b) if b == &b"pw\n".to_vec()));
    assert_eq!(m.current_state(), CaptureState::Sent);
}

#[test]
fn output_without_prompt_is_forwarded_while_awaiting() {
    let mut m = CaptureMachine::new(Some(b"pw".to_vec()));
    let act = m.step(&b"Welcome banner\n".to_vec());
    assert!(matches!(act, ChunkAction::Forward));
    assert_eq!(m.current_state(), CaptureState::AwaitingPrompt);
}

#[test]
fn capitalized_prompt_still_triggers_injection() {
    let mut m = CaptureMachine::new(Some(b"pw".to_vec()));
    let act = m.step(&b"Password: ".to_vec());
    assert!(matches!(act, ChunkAction::Inject(_)));
}

#[test]
fn whitespace_chunks_after_injection_are_skipped() {
    let mut m = CaptureMachine::new(Some(b"pw".to_vec()));
    m.step(&b"password: ".to_vec());
    assert!(matches!(m.step(&b"\r\n".to_vec()), ChunkAction::Skip));
    assert!(matches!(m.step(&b" \t ".to_vec()), ChunkAction::Skip));
    assert_eq!(m.current_state(), CaptureState::Sent);
}

#[test]
fn denial_in_first_real_chunk_becomes_notice() {
    let mut m = CaptureMachine::new(Some(b"pw".to_vec()));
    m.step(&b"password: ".to_vec());
    m.step(&b"\n".to_vec());
    let act = m.step(&b"Permission denied, please try again.".to_vec());
    assert!(matches!(act, ChunkAction::Notice));
    assert_eq!(m.current_state(), CaptureState::Done);
}

#[test]
fn clean_first_chunk_is_forwarded_and_validation_ends() {
    let mut m = CaptureMachine::new(Some(b"pw".to_vec()));
    m.step(&b"password: ".to_vec());
    let act = m.step(&b"Last login: today\n".to_vec());
    assert!(matches!(act, ChunkAction::Forward));
    assert_eq!(m.current_state(), CaptureState::Done);
}

#[test]
fn later_denials_are_forwarded_raw() {
    let mut m = CaptureMachine::new(Some(b"pw".to_vec()));
    m.step(&b"password: ".to_vec());
    m.step(&b"ok\n".to_vec());
    let act = m.step(&b"Permission denied".to_vec());
    assert!(matches!(act, ChunkAction::Forward));
}
