//! The session's per-event decision functions.
//!
//! The unverified shell owns the pseudo-terminal handles and runs the three
//! loops — blocking reads from the master, the input writer, and the render
//! and event loop. Every decision those loops take stands here: what one
//! output chunk does to the capture machine, the screen and the transcript;
//! how typed bytes are mirrored; and how a resize keeps every notion of the
//! session's dimensions in step.

use vstd::prelude::*;

use crate::capture::{
    denied_marker, next_state, notice_bytes, notice_text, spec_injects, CaptureMachine,
    CaptureState, ChunkAction,
};
use crate::scan::all_ws;
use crate::scan::contains_seq;
use crate::sink::ByteSink;
use crate::size::Size;
use crate::transcript::{capped_append, Transcript, INPUT_TRANSCRIPT_CAP, OUTPUT_TRANSCRIPT_CAP};

verus! {

/// The text that lossy UTF-8 decoding makes of a byte chunk, as bytes
/// again. The pseudo-terminal may split multi-byte sequences across chunks;
/// the decoded text serves marker detection and the transcript only, while
/// the raw bytes are what reach the screen.
pub uninterp spec fn lossy_of(b: Seq<u8>) -> Seq<u8>;

/// Relies on `String::from_utf8_lossy`: the decoded text is a function of
/// the chunk's bytes alone.
#[verifier::external_body]
fn decode_lossy(b: &Vec<u8>) -> (r: Vec<u8>)
    ensures
        r@ == lossy_of(b@),
{
    String::from_utf8_lossy(b.as_slice()).into_owned().into_bytes()
}

/// One step of the output reader: runs the capture machine on the decoded
/// chunk, feeds the screen accordingly, and records the decoded text of
/// every chunk in the transcript under the output cap.
///
/// The returned bytes, when present, are the consumed candidate password
/// followed by a line feed; the caller must queue them for the child. In
/// that case, and in the whitespace-swallow case right after an injection,
/// nothing is fed to the screen; after a rejected injection the
/// outdated-password notice is fed in place of the raw chunk; otherwise
/// the raw chunk is fed as it came.
pub fn output_step(
    capture: &mut CaptureMachine,
    sink: &mut ByteSink,
    transcript: &mut Transcript,
    chunk: &Vec<u8>,
) -> (inject: Option<Vec<u8>>)
    requires
        old(capture).wf(),
        old(sink).wf(),
    ensures
        final(capture).wf(),
        final(sink).wf(),
        final(capture).state() == next_state(old(capture).state(), lossy_of(chunk@)),
        final(sink).rows() == old(sink).rows(),
        final(sink).cols() == old(sink).cols(),
        final(transcript)@ == capped_append(old(transcript)@, lossy_of(chunk@), OUTPUT_TRANSCRIPT_CAP as int),
        spec_injects(old(capture).state(), lossy_of(chunk@)) ==> (
            inject matches Some(b)
            && b@ == old(capture).candidate()->0 + seq![10u8]
            && final(sink).fed() == old(sink).fed()
        ),
        !spec_injects(old(capture).state(), lossy_of(chunk@)) ==> inject is None,
        (!spec_injects(old(capture).state(), lossy_of(chunk@))
            && old(capture).state() == CaptureState::Sent
            && all_ws(lossy_of(chunk@))) ==> final(sink).fed() == old(sink).fed(),
        (!spec_injects(old(capture).state(), lossy_of(chunk@))
            && old(capture).state() == CaptureState::Sent
            && !all_ws(lossy_of(chunk@))
            && contains_seq(lossy_of(chunk@), denied_marker())) ==> final(sink).fed() == old(
            sink).fed() + notice_text(),
        (!spec_injects(old(capture).state(), lossy_of(chunk@))
            && old(capture).state() == CaptureState::Sent
            && !all_ws(lossy_of(chunk@))
            && !contains_seq(lossy_of(chunk@), denied_marker())) ==> final(sink).fed() == old(
            sink).fed() + chunk@,
        (!spec_injects(old(capture).state(), lossy_of(chunk@))
            && old(capture).state() != CaptureState::Sent) ==> final(sink).fed() == old(
            sink).fed() + chunk@,
{
    let decoded = decode_lossy(chunk);
    let act = capture.step(&decoded);
    transcript.append_capped(&decoded, OUTPUT_TRANSCRIPT_CAP);
    match act {
        ChunkAction::Inject(b) => Some(b),
        ChunkAction::Skip => None,
        ChunkAction::Notice => {
            let notice = notice_bytes();
            sink.process(&notice);
            None
        },
        ChunkAction::Forward => {
            sink.process(chunk);
            None
        },
    }
}

/// One step of the input writer's mirroring: the bytes just written to the
/// child are recorded in the transcript, decoded, under the larger cap.
pub fn mirror_input(transcript: &mut Transcript, data: &Vec<u8>)
    ensures
        final(transcript)@ == capped_append(
            old(transcript)@,
            lossy_of(data@),
            INPUT_TRANSCRIPT_CAP as int,
        ),
{
    let decoded = decode_lossy(data);
    transcript.append_capped(&decoded, INPUT_TRANSCRIPT_CAP);
}

/// The dimensions the render loop works with: its own viewport, and the
/// size last commanded to the pseudo-terminal master.
#[derive(Debug, Clone, Copy, PartialEq, Eq, Structural)]
pub struct SessionGeometry {
    /// The rectangle the renderer draws into.
    pub viewport: Size,
    /// The size last commanded to the pseudo-terminal.
    pub pty: Size,
}

/// Every notion of the session's dimensions agrees: the renderer's
/// viewport, the emulated screen, and the pseudo-terminal.
pub open spec fn dims_consistent(g: SessionGeometry, sink: ByteSink) -> bool {
    g.viewport == g.pty && sink.size_is(g.viewport)
}

impl SessionGeometry {
    /// At session start every dimension is the requested size.
    pub fn new(size: Size) -> (g: SessionGeometry)
        ensures
            g.viewport == size,
            g.pty == size,
    {
        SessionGeometry { viewport: size, pty: size }
    }
}

/// Applies a resize event: the viewport, the emulated screen and the
/// commanded pseudo-terminal size move to the new dimensions together, so
/// no later render tick can observe them disagreeing. Returns the size the
/// shell must apply to the pseudo-terminal master. The emulated screen
/// cannot be zero-sized, so both dimensions must be at least one.
pub fn handle_resize(g: &mut SessionGeometry, sink: &mut ByteSink, rows: u16, cols: u16) -> (s:
    Size)
    requires
        rows >= 1,
        cols >= 1,
    ensures
        final(sink).wf(),
        s.rows == rows,
        s.cols == cols,
        final(g).viewport == s,
        final(g).pty == s,
        final(sink).size_is(s),
        dims_consistent(*final(g), *final(sink)),
        final(sink).fed() == old(sink).fed(),
{
    let s = Size::new(rows, cols);
    g.viewport = s;
    g.pty = s;
    sink.set_size(s);
    s
}

/// What a render tick observes: under the consistency that construction and
/// every resize establish, the viewport it draws into has exactly the
/// dimensions of the emulated screen and of the pseudo-terminal.
pub proof fn lemma_render_observes_one_size(g: SessionGeometry, sink: ByteSink)
    requires
        dims_consistent(g, sink),
    ensures
        g.viewport.rows == sink.rows(),
        g.viewport.cols == sink.cols(),
        g.viewport == g.pty,
{
}

} // verus!
