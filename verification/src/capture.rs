//! The password-capture state machine.
//!
//! One instance lives for the duration of an output-reader loop. It watches
//! the lossily decoded output of the child for a password prompt; when a
//! remembered candidate password is held, the candidate is queued for
//! injection at the first prompt — at most once per session — and the output
//! right after the injection is inspected once to decide whether the
//! candidate was rejected.

use vstd::prelude::*;

use crate::scan::{all_whitespace, all_ws, contains_seq, contains_subseq};

verus! {

/// The marker whose appearance in decoded output is taken as a password
/// prompt: the bytes of `"assword: "`, so that both `"Password: "` and
/// `"password: "` are recognized.
pub open spec fn inject_marker() -> Seq<u8> {
    seq![97u8, 115, 115, 119, 111, 114, 100, 58, 32]
}

/// The bytes of `"ermission denied"`, the authentication-failure marker.
pub open spec fn denied_marker() -> Seq<u8> {
    seq![101u8, 114, 109, 105, 115, 115, 105, 111, 110, 32, 100, 101, 110, 105, 101, 100]
}

/// The user-visible notice fed to the screen in place of a raw denial, in
/// underlined emphasis: `"Cached password is outdated, please input it
/// again."` followed by a line break.
pub open spec fn notice_text() -> Seq<u8> {
    seq![
        27u8, 91, 49, 59, 52, 109, 67, 97, 99, 104, 101, 100, 32, 112, 97, 115,
        115, 119, 111, 114, 100, 32, 105, 115, 32, 111, 117, 116, 100, 97, 116, 101,
        100, 44, 32, 112, 108, 101, 97, 115, 101, 32, 105, 110, 112, 117, 116, 32,
        105, 116, 32, 97, 103, 97, 105, 110, 46, 27, 91, 48, 109, 10,
    ]
}

/// The prompt marker as a byte vector.
pub fn inject_marker_bytes() -> (r: Vec<u8>)
    ensures
        r@ == inject_marker(),
{
    let r: Vec<u8> = vec![97u8, 115, 115, 119, 111, 114, 100, 58, 32];
    proof {
        assert(r@ =~= inject_marker());
    }
    r
}

/// The authentication-failure marker as a byte vector.
pub fn denied_marker_bytes() -> (r: Vec<u8>)
    ensures
        r@ == denied_marker(),
{
    let r: Vec<u8> = vec![
        101u8, 114, 109, 105, 115, 115, 105, 111, 110, 32, 100, 101, 110, 105, 101, 100,
    ];
    proof {
        assert(r@ =~= denied_marker());
    }
    r
}

/// The outdated-password notice as a byte vector.
pub fn notice_bytes() -> (r: Vec<u8>)
    ensures
        r@ == notice_text(),
{
    let r: Vec<u8> = vec![
        27u8, 91, 49, 59, 52, 109, 67, 97, 99, 104, 101, 100, 32, 112, 97, 115,
        115, 119, 111, 114, 100, 32, 105, 115, 32, 111, 117, 116, 100, 97, 116, 101,
        100, 44, 32, 112, 108, 101, 97, 115, 101, 32, 105, 110, 112, 117, 116, 32,
        105, 116, 32, 97, 103, 97, 105, 110, 46, 27, 91, 48, 109, 10,
    ];
    proof {
        assert(r@ =~= notice_text());
    }
    r
}

/// The phase of the password-capture protocol.
#[derive(Debug, Clone, Copy, PartialEq, Eq, Structural)]
pub enum CaptureState {
    /// A candidate password is held and no prompt has been seen yet.
    AwaitingPrompt,
    /// The candidate was queued for injection; the echo noise that follows
    /// is swallowed until the first non-whitespace chunk arrives.
    Sent,
    /// Validation is over, or no candidate was ever held: output is
    /// forwarded unmodified.
    Done,
}

/// What the output reader must do with one decoded chunk.
pub enum ChunkAction {
    /// Queue these bytes for the child — the candidate password and a line
    /// feed — and feed nothing to the screen.
    Inject(Vec<u8>),
    /// Feed nothing to the screen: whitespace echo noise right after an
    /// injection is not shown (the transcript still records its decoded
    /// text, like every chunk's).
    Skip,
    /// Feed the outdated-password notice to the screen in place of the raw
    /// chunk.
    Notice,
    /// Feed the raw chunk to the screen.
    Forward,
}

/// An injection fires from state `s` on decoded chunk `d`.
pub open spec fn spec_injects(s: CaptureState, d: Seq<u8>) -> bool {
    s == CaptureState::AwaitingPrompt && contains_seq(d, inject_marker())
}

/// The state after one decoded chunk `d` is inspected in state `s`.
pub open spec fn next_state(s: CaptureState, d: Seq<u8>) -> CaptureState {
    if spec_injects(s, d) {
        CaptureState::Sent
    } else if s == CaptureState::Sent && !all_ws(d) {
        CaptureState::Done
    } else {
        s
    }
}

/// The number of injections over a whole run of decoded chunks starting in
/// state `s`.
pub open spec fn inject_count(s: CaptureState, ds: Seq<Seq<u8>>) -> nat
    decreases ds.len(),
{
    if ds.len() == 0 {
        0nat
    } else {
        (if spec_injects(s, ds[0]) {
            1nat
        } else {
            0nat
        }) + inject_count(next_state(s, ds[0]), ds.drop_first())
    }
}

/// Once the machine has left `AwaitingPrompt` it never injects again.
pub proof fn lemma_no_inject_after_leaving(s: CaptureState, ds: Seq<Seq<u8>>)
    requires
        s != CaptureState::AwaitingPrompt,
    ensures
        inject_count(s, ds) == 0,
    decreases ds.len(),
{
    if ds.len() > 0 {
        lemma_no_inject_after_leaving(next_state(s, ds[0]), ds.drop_first());
    }
}

/// However many times the password prompt reappears in the output, a run of
/// the capture machine injects the candidate at most once.
pub proof fn lemma_candidate_sent_at_most_once(s: CaptureState, ds: Seq<Seq<u8>>)
    ensures
        inject_count(s, ds) <= 1,
    decreases ds.len(),
{
    if ds.len() > 0 {
        if spec_injects(s, ds[0]) {
            lemma_no_inject_after_leaving(next_state(s, ds[0]), ds.drop_first());
        } else {
            lemma_candidate_sent_at_most_once(next_state(s, ds[0]), ds.drop_first());
        }
    }
}

/// The per-session password-capture state machine.
pub struct CaptureMachine {
    state: CaptureState,
    candidate: Option<Vec<u8>>,
}

impl CaptureMachine {
    /// The current phase.
    pub closed spec fn state(self) -> CaptureState {
        self.state
    }

    /// The candidate password still held, if any.
    pub closed spec fn candidate(self) -> Option<Seq<u8>> {
        match self.candidate {
            Some(v) => Some(v@),
            None => None,
        }
    }

    /// A candidate is held exactly while the machine still awaits a prompt.
    pub open spec fn wf(self) -> bool {
        self.candidate() is Some <==> self.state() == CaptureState::AwaitingPrompt
    }

    /// Creates the machine for one session. With a candidate password the
    /// machine waits for a prompt; without one it forwards everything from
    /// the start.
    pub fn new(candidate: Option<Vec<u8>>) -> (m: CaptureMachine)
        ensures
            m.wf(),
            match candidate {
                Some(v) => m.state() == CaptureState::AwaitingPrompt && m.candidate() == Some(v@),
                None => m.state() == CaptureState::Done && m.candidate() is None,
            },
    {
        match candidate {
            Some(v) => CaptureMachine { state: CaptureState::AwaitingPrompt, candidate: Some(v) },
            None => CaptureMachine { state: CaptureState::Done, candidate: None },
        }
    }

    /// The current phase, for callers outside the proof.
    pub fn current_state(&self) -> (s: CaptureState)
        ensures
            s == self.state(),
    {
        self.state
    }

    /// Inspects one decoded output chunk and decides what the reader must do
    /// with it.
    pub fn step(&mut self, decoded: &Vec<u8>) -> (act: ChunkAction)
        requires
            old(self).wf(),
        ensures
            final(self).wf(),
            final(self).state() == next_state(old(self).state(), decoded@),
            spec_injects(old(self).state(), decoded@) ==> final(self).candidate() is None,
            !spec_injects(old(self).state(), decoded@) ==> final(self).candidate() == old(
                self,
            ).candidate(),
            spec_injects(old(self).state(), decoded@) ==> (act matches ChunkAction::Inject(b)
                && b@ == old(self).candidate()->0 + seq![10u8]),
            !spec_injects(old(self).state(), decoded@) ==> match old(self).state() {
                CaptureState::Sent => {
                    if all_ws(decoded@) {
                        act is Skip
                    } else {
                        if contains_seq(decoded@, denied_marker()) {
                            act is Notice
                        } else {
                            act is Forward
                        }
                    }
                },
                _ => act is Forward,
            },
    {
        if self.candidate.is_some() {
            let marker = inject_marker_bytes();
            if contains_subseq(decoded, &marker) {
                let mut b = self.candidate.take().unwrap();
                b.push(10u8);
                self.state = CaptureState::Sent;
                return ChunkAction::Inject(b);
            }
            return ChunkAction::Forward;
        }
        match self.state {
            CaptureState::Sent => {
                if all_whitespace(decoded) {
                    ChunkAction::Skip
                } else {
                    self.state = CaptureState::Done;
                    let denied = denied_marker_bytes();
                    if contains_subseq(decoded, &denied) {
                        ChunkAction::Notice
                    } else {
                        ChunkAction::Forward
                    }
                }
            },
            _ => ChunkAction::Forward,
        }
    }
}

} // verus!
