use fssh::transcript::{Transcript, INPUT_TRANSCRIPT_CAP, OUTPUT_TRANSCRIPT_CAP};

fn transcript_with(contents: &[u8]) -> Transcript {
    let mut t = Transcript::new();
    t.append_capped(&contents.to_vec(), usize::MAX);
    t
}

#[test]
fn caps_match_the_two_tiers() {
    assert_eq!(OUTPUT_TRANSCRIPT_CAP, 1024);
    assert_eq!(INPUT_TRANSCRIPT_CAP, 4096);
}

#[test]
fn append_below_cap_records_whole_chunk() {
    let mut t = Transcript::new();
    t.append_capped(&vec![1, 2, 3], 2);
    assert_eq!(t.contents(), &vec![1, 2, 3]);
}

#[test]
fn append_at_cap_records_nothing_more() {
    let mut t = Transcript::new();
    t.append_capped(&vec![1, 2], 2);
    t.append_capped(&vec![3], 2);
    assert_eq!(t.contents(), &vec![1, 2]);
}

#[test]
fn extraction_needs_the_banner() {
    let t = transcript_with(b"user@host's password: hunter2\nsome output\n");
    assert_eq!(t.extract_password(), None);
}

#[test]
fn extraction_finds_line_after_last_prompt() {
    let t = transcript_with(b"password: first\npassword: second\nLast login: today\n");
    assert_eq!(t.extract_password(), Some(b"second".to_vec()));
}

#[test]
fn extraction_trims_surrounding_whitespace() {
    let t = transcript_with(b"host's password:   spaced\t \nLast login: now\n");
    assert_eq!(t.extract_password(), Some(b"spaced".to_vec()));
}

#[test]
fn extraction_without_line_break_after_prompt_yields_nothing() {
    let t = transcript_with(b"Last login: earlier\nhost's password: cutoff");
    assert_eq!(t.extract_password(), None);
}

#[test]
fn capitalized_prompt_is_not_an_extraction_marker() {
    let t = transcript_with(b"Password: typed\nLast login: today\n");
    assert_eq!(t.extract_password(), None);
}

#[test]
fn banner_before_or_after_prompt_both_count() {
    let t = transcript_with(b"Last login: before\nhost's password: pw1\nrest\n");
    assert_eq!(t.extract_password(), Some(b"pw1".to_vec()));
}

#[test]
fn empty_transcript_yields_nothing() {
    let t = Transcript::new();
    assert_eq!(t.extract_password(), None);
}
