use fssh::capture::{CaptureMachine, CaptureState};
use fssh::session::{handle_resize, mirror_input, output_step, SessionGeometry};
use fssh::sink::ByteSink;
use fssh::size::Size;
use fssh::transcript::Transcript;

fn session_parts(candidate: Option<&[u8]>) -> (CaptureMachine, ByteSink, Transcript) {
    let capture = CaptureMachine::new(candidate.map(|c| c.to_vec()));
    let sink = ByteSink::new(Size::new(24, 80));
    let transcript = Transcript::new();
    (capture, sink, transcript)
}

#[test]
fn candidate_is_injected_at_prompt_and_not_shown() {
    let (mut capture, mut sink, mut transcript) = session_parts(Some(b"secret"));
    let inject = output_step(
        &mut capture,
        &mut sink,
        &mut transcript,
        &b"host's Password: ".to_vec(),
    );
    assert_eq!(inject, Some(b"secret\n".to_vec()));
    assert_eq!(capture.current_state(), CaptureState::Sent);
    // The prompt chunk is recorded but not fed to the screen.
    assert_eq!(transcript.contents(), &b"host's Password: ".to_vec());
    assert_eq!(sink.screen().contents().trim(), "");
}

#[test]
fn candidate_is_injected_at_most_once() {
    let (mut capture, mut sink, mut transcript) = session_parts(Some(b"secret"));
    let first = output_step(&mut capture, &mut sink, &mut transcript, &b"password: ".to_vec());
    assert_eq!(first, Some(b"secret\n".to_vec()));
    // Swallow the echo, then validate, then see the prompt again.
    let noise = output_step(&mut capture, &mut sink, &mut transcript, &b"\r\n".to_vec());
    assert_eq!(noise, None);
    let ok = output_step(&mut capture, &mut sink, &mut transcript, &b"Welcome\n".to_vec());
    assert_eq!(ok, None);
    let again = output_step(&mut capture, &mut sink, &mut transcript, &b"password: ".to_vec());
    assert_eq!(again, None);
    assert_eq!(capture.current_state(), CaptureState::Done);
}

#[test]
fn whitespace_after_injection_is_swallowed() {
    let (mut capture, mut sink, mut transcript) = session_parts(Some(b"pw"));
    output_step(&mut capture, &mut sink, &mut transcript, &b"password: ".to_vec());
    let mut expected = transcript.contents().clone();
    let r = output_step(&mut capture, &mut sink, &mut transcript, &b" \r\n\t".to_vec());
    assert_eq!(r, None);
    assert_eq!(capture.current_state(), CaptureState::Sent);
    // Swallowed noise is not shown, but its decoded text is still recorded.
    expected.extend_from_slice(b" \r\n\t");
    assert_eq!(transcript.contents(), &expected);
    assert_eq!(sink.screen().contents().trim(), "");
}

#[test]
fn rejected_injection_shows_notice_instead_of_denial() {
    let (mut capture, mut sink, mut transcript) = session_parts(Some(b"oldpw"));
    let inject = output_step(&mut capture, &mut sink, &mut transcript, &b"password: ".to_vec());
    assert_eq!(inject, Some(b"oldpw\n".to_vec()));
    let r = output_step(
        &mut capture,
        &mut sink,
        &mut transcript,
        &b"Permission denied, please try again.".to_vec(),
    );
    assert_eq!(r, None);
    let shown = sink.screen().contents();
    assert!(shown.contains("Cached password is outdated"));
    assert!(!shown.contains("Permission denied"));
    // No further auto-injection for the rest of the session.
    let again = output_step(&mut capture, &mut sink, &mut transcript, &b"password: ".to_vec());
    assert_eq!(again, None);
}

#[test]
fn known_validated_password_is_not_captured_again() {
    let (mut capture, mut sink, mut transcript) = session_parts(Some(b"secret"));
    output_step(&mut capture, &mut sink, &mut transcript, &b"...Password: ".to_vec());
    mirror_input(&mut transcript, &b"secret\n".to_vec());
    let r = output_step(
        &mut capture,
        &mut sink,
        &mut transcript,
        &b"\nLast login: Mon Jan  1 00:00:00\n".to_vec(),
    );
    assert_eq!(r, None);
    assert_eq!(transcript.extract_password(), None);
}

#[test]
fn typed_password_is_recovered_from_transcript() {
    let (mut capture, mut sink, mut transcript) = session_parts(None);
    let r = output_step(
        &mut capture,
        &mut sink,
        &mut transcript,
        &b"user@host's password: ".to_vec(),
    );
    // Without a candidate the prompt is forwarded verbatim.
    assert_eq!(r, None);
    assert!(sink.screen().contents().contains("password:"));
    mirror_input(&mut transcript, &b"mypw\n".to_vec());
    output_step(
        &mut capture,
        &mut sink,
        &mut transcript,
        &b"Last login: Mon Jan  1 00:00:00\n".to_vec(),
    );
    assert_eq!(transcript.extract_password(), Some(b"mypw".to_vec()));
}

#[test]
fn invalid_bytes_are_recorded_lossily() {
    let (mut capture, mut sink, mut transcript) = session_parts(None);
    let chunk: Vec<u8> = vec![0xFF, b'h', b'i'];
    output_step(&mut capture, &mut sink, &mut transcript, &chunk);
    assert_eq!(transcript.contents(), &"\u{FFFD}hi".as_bytes().to_vec());
}

#[test]
fn output_transcription_stops_at_the_small_cap() {
    let (mut capture, mut sink, mut transcript) = session_parts(None);
    let big: Vec<u8> = vec![b'x'; 1024];
    output_step(&mut capture, &mut sink, &mut transcript, &big);
    output_step(&mut capture, &mut sink, &mut transcript, &b"late".to_vec());
    assert_eq!(transcript.contents().len(), 1024);
}

#[test]
fn mirrored_input_uses_the_larger_cap() {
    let mut transcript = Transcript::new();
    let big: Vec<u8> = vec![b'y'; 4096];
    mirror_input(&mut transcript, &big);
    mirror_input(&mut transcript, &b"late".to_vec());
    assert_eq!(transcript.contents().len(), 4096);
    // Below the cap a whole chunk is still recorded, even past the cap.
    let mut t2 = Transcript::new();
    let almost: Vec<u8> = vec![b'z'; 4095];
    mirror_input(&mut t2, &almost);
    mirror_input(&mut t2, &b"over".to_vec());
    assert_eq!(t2.contents().len(), 4099);
}

#[test]
fn resize_moves_all_dimensions_together() {
    let mut sink = ByteSink::new(Size::new(24, 80));
    let mut geometry = SessionGeometry::new(Size::new(24, 80));
    let s = handle_resize(&mut geometry, &mut sink, 30, 100);
    assert_eq!((s.rows, s.cols), (30, 100));
    assert_eq!((geometry.viewport.rows, geometry.viewport.cols), (30, 100));
    assert_eq!((geometry.pty.rows, geometry.pty.cols), (30, 100));
    let after = sink.size();
    assert_eq!((after.rows, after.cols), (30, 100));
    // The emulator itself was resized too.
    assert_eq!(sink.screen().size(), (30, 100));
}

#[test]
fn sink_reports_initial_size() {
    let sink = ByteSink::new(Size::new(24, 80));
    let s = sink.size();
    assert_eq!((s.rows, s.cols), (24, 80));
    assert_eq!(sink.screen().size(), (24, 80));
}
