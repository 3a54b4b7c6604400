//! The byte sink: the terminal-emulator state that output is rendered from.
//!
//! The sink owns a `vt100` terminal emulator (as re-exported by `tui_term`)
//! and feeds it the bytes the output reader decides to show. What the
//! emulator makes of the bytes — cells, cursor, styling — is its own
//! concern and is not modelled; the sink tracks, alongside it, the exact
//! byte stream fed and the screen dimensions commanded, which is what the
//! session's contracts speak about.

use vstd::prelude::*;

use crate::size::Size;

verus! {

/// The scrollback depth the emulator is created with.
pub const SCROLLBACK_LINES: usize = 1000;

/// Declaration of the `vt100` screen-state type, handed out read-only for
/// rendering.
#[verifier::external_type_specification]
#[verifier::external_body]
pub struct ExScreen(tui_term::vt100::Screen);

/// Holds the `vt100` terminal emulator. The emulator type is generic over a
/// callback trait and cannot be declared to the verifier, so this handle is
/// opaque as a whole and is touched only through the trusted functions
/// beside it.
#[verifier::external_body]
struct EmulatorHandle {
    parser: tui_term::vt100::Parser,
}

/// Relies on `vt100::Parser::new`: creates a fresh emulator of the given
/// size and scrollback depth. The emulator does not support zero-sized
/// screens (its grid arithmetic underflows on them), so both dimensions
/// must be at least one.
#[verifier::external_body]
fn emulator_new(rows: u16, cols: u16, scrollback: usize) -> EmulatorHandle
    requires
        rows >= 1,
        cols >= 1,
{
    EmulatorHandle { parser: tui_term::vt100::Parser::new(rows, cols, scrollback) }
}

/// Relies on `vt100::Parser::process`: interprets output bytes into the
/// emulator's screen state. Every handle is created and resized with
/// nonzero dimensions (the functions above and below demand it), which is
/// what the emulator's row bookkeeping needs to stay panic-free.
#[verifier::external_body]
fn emulator_process(h: &mut EmulatorHandle, bytes: &Vec<u8>) {
    h.parser.process(bytes.as_slice())
}

/// Relies on `vt100::Parser::set_size`: resizes the emulated screen. Both
/// dimensions must be at least one, as for `vt100::Parser::new`.
#[verifier::external_body]
fn emulator_set_size(h: &mut EmulatorHandle, rows: u16, cols: u16)
    requires
        rows >= 1,
        cols >= 1,
{
    h.parser.set_size(rows, cols)
}

/// Relies on `vt100::Parser::screen`: a read-only view of the emulator's
/// screen state.
#[verifier::external_body]
fn emulator_screen(h: &EmulatorHandle) -> &tui_term::vt100::Screen {
    h.parser.screen()
}

/// The terminal-emulator state fed by the output reader, shared with the
/// render loop.
pub struct ByteSink {
    emulator: EmulatorHandle,
    rows: u16,
    cols: u16,
    fed: Ghost<Seq<u8>>,
}

impl ByteSink {
    /// The byte stream fed to the emulator so far.
    pub closed spec fn fed(self) -> Seq<u8> {
        self.fed@
    }

    /// The commanded number of screen rows.
    pub closed spec fn rows(self) -> u16 {
        self.rows
    }

    /// The commanded number of screen columns.
    pub closed spec fn cols(self) -> u16 {
        self.cols
    }

    /// The sink's screen has exactly the dimensions `s`.
    pub open spec fn size_is(self, s: Size) -> bool {
        self.rows() == s.rows && self.cols() == s.cols
    }

    /// The emulated screen has at least one row and one column — the
    /// emulator's own limit, which construction and every resize keep.
    pub open spec fn wf(self) -> bool {
        self.rows() >= 1 && self.cols() >= 1
    }

    /// Creates an emulator screen of the given size with nothing fed yet.
    pub fn new(size: Size) -> (s: ByteSink)
        requires
            size.rows >= 1,
            size.cols >= 1,
        ensures
            s.wf(),
            s.fed() == Seq::<u8>::empty(),
            s.size_is(size),
    {
        ByteSink {
            emulator: emulator_new(size.rows, size.cols, SCROLLBACK_LINES),
            rows: size.rows,
            cols: size.cols,
            fed: Ghost(Seq::empty()),
        }
    }

    /// Feeds `bytes` to the emulator; the fed stream grows by exactly those
    /// bytes and the dimensions stay as they were.
    pub fn process(&mut self, bytes: &Vec<u8>)
        requires
            old(self).wf(),
        ensures
            final(self).wf(),
            final(self).fed() == old(self).fed() + bytes@,
            final(self).rows() == old(self).rows(),
            final(self).cols() == old(self).cols(),
    {
        emulator_process(&mut self.emulator, bytes);
        let ghost fed0 = self.fed@;
        proof {
            self.fed@ = fed0 + bytes@;
        }
    }

    /// Resizes the emulated screen; the fed stream is untouched.
    pub fn set_size(&mut self, size: Size)
        requires
            size.rows >= 1,
            size.cols >= 1,
        ensures
            final(self).wf(),
            final(self).size_is(size),
            final(self).fed() == old(self).fed(),
    {
        emulator_set_size(&mut self.emulator, size.rows, size.cols);
        self.rows = size.rows;
        self.cols = size.cols;
    }

    /// The commanded screen dimensions.
    pub fn size(&self) -> (s: Size)
        ensures
            self.size_is(s),
    {
        Size::new(self.rows, self.cols)
    }

    /// The emulator's screen state, for rendering.
    pub fn screen(&self) -> &tui_term::vt100::Screen {
        emulator_screen(&self.emulator)
    }
}

} // verus!
