//! Bounded, UTF-8-safe output buffer for agent-spawned terminals.
//!
//! The buffer accumulates decoded output text.  When a byte limit is
//! configured and the accumulated text grows past it, the front is trimmed
//! down to the limit, never cutting a multi-byte character in half: the cut
//! point moves forward to the nearest character boundary before the kept
//! tail is measured.  Once trimmed, the buffer stays marked truncated for
//! the rest of its life.

use vstd::prelude::*;
use vstd::utf8::{
    encode_utf8, decode_utf8, is_char_boundary, valid_utf8, encode_utf8_valid_utf8,
    encode_utf8_decode_utf8, decode_utf8_encode_utf8, is_char_boundary_start_end_of_seq,
    valid_utf8_split,
};

verus! {

/// Byte length of text: the length of its UTF-8 encoding.
pub open spec fn byte_len(s: Seq<char>) -> nat {
    encode_utf8(s).len()
}

/// The smallest character boundary of `bytes` at or after `i`; the end of
/// the sequence counts as a boundary.
pub open spec fn boundary_at_or_after(bytes: Seq<u8>, i: int) -> int
    decreases bytes.len() - i,
    when i <= bytes.len()
{
    if i >= bytes.len() {
        bytes.len() as int
    } else if is_char_boundary(bytes, i) {
        i
    } else {
        boundary_at_or_after(bytes, i + 1)
    }
}

pub proof fn lemma_boundary_at_or_after(bytes: Seq<u8>, i: int)
    requires
        0 <= i <= bytes.len(),
        valid_utf8(bytes),
    ensures
        i <= boundary_at_or_after(bytes, i) <= bytes.len(),
        is_char_boundary(bytes, boundary_at_or_after(bytes, i)),
    decreases bytes.len() - i,
{
    if i >= bytes.len() {
        is_char_boundary_start_end_of_seq(bytes);
    } else if is_char_boundary(bytes, i) {
    } else {
        lemma_boundary_at_or_after(bytes, i + 1);
    }
}

/// Abstract state of a terminal output buffer.
pub struct TerminalOutputView {
    pub output: Seq<char>,
    pub truncated: bool,
}

/// The state after appending `chunk` under byte limit `limit`: the chunk is
/// concatenated, and if the result's encoding exceeds the limit, the front
/// is dropped up to the first character boundary at or past the overflow,
/// and the truncated flag is set.
pub open spec fn append_model(
    pre: TerminalOutputView,
    chunk: Seq<char>,
    limit: Option<u64>,
) -> TerminalOutputView {
    let combined = pre.output + chunk;
    let cb = encode_utf8(combined);
    match limit {
        None => TerminalOutputView { output: combined, truncated: pre.truncated },
        Some(l) => if cb.len() <= l {
            TerminalOutputView { output: combined, truncated: pre.truncated }
        } else {
            let start = boundary_at_or_after(cb, cb.len() - l);
            TerminalOutputView {
                output: decode_utf8(cb.subrange(start, cb.len() as int)),
                truncated: true,
            }
        },
    }
}

/// Accumulated output of one agent-spawned terminal.
pub struct TerminalOutputState {
    output: String,
    truncated: bool,
}

impl View for TerminalOutputState {
    type V = TerminalOutputView;

    closed spec fn view(&self) -> TerminalOutputView {
        TerminalOutputView { output: self.output@, truncated: self.truncated }
    }
}

impl TerminalOutputState {
    /// An empty, untruncated buffer.
    pub fn new() -> (r: Self)
        ensures
            r@.output == Seq::<char>::empty(),
            r@.truncated == false,
    {
        TerminalOutputState { output: String::new(), truncated: false }
    }

    /// Appends a decoded chunk, trimming the front to `limit` bytes on a
    /// character boundary when the accumulated text overflows.
    pub fn append(&mut self, chunk: &str, limit: Option<u64>)
        ensures
            final(self)@ == append_model(old(self)@, chunk@, limit),
    {
        self.output.append(chunk);
        let ghost combined = self.output@;
        if let Some(l) = limit {
            let blen = self.output.as_str().as_bytes().len();
            proof {
                assert(encode_utf8(combined).len() == blen);
            }
            if blen as u64 > l {
                self.truncated = true;
                let ghost cb = encode_utf8(combined);
                proof {
                    encode_utf8_valid_utf8(combined);
                }
                let target: usize = blen - (l as usize);
                let mut start: usize = target;
                while !self.output.as_str().is_char_boundary(start)
                    invariant
                        self.truncated == true,
                        self.output@ == combined,
                        cb == encode_utf8(combined),
                        valid_utf8(cb),
                        blen == cb.len(),
                        target <= start <= cb.len(),
                        boundary_at_or_after(cb, target as int) == boundary_at_or_after(
                            cb,
                            start as int,
                        ),
                    decreases cb.len() - start,
                {
                    proof {
                        is_char_boundary_start_end_of_seq(cb);
                        assert(start < cb.len());
                    }
                    start += 1;
                }
                proof {
                    assert(boundary_at_or_after(cb, target as int) == start as int);
                }
                let tail_string = {
                    let s = self.output.as_str();
                    let pieces = s.split_at(start);
                    pieces.1.to_owned()
                };
                proof {
                    encode_utf8_decode_utf8(tail_string@);
                }
                self.output = tail_string;
            }
        }
    }

    /// A consistent copy of the buffered output and the truncated flag.
    pub fn snapshot(&self) -> (r: (String, bool))
        ensures
            r.0@ == self@.output,
            r.1 == self@.truncated,
    {
        (self.output.clone(), self.truncated)
    }
}

/// Appending under a byte limit always leaves the buffer's encoding within
/// the limit, and sets the truncated flag whenever the accumulated text
/// overflowed it.
pub proof fn lemma_append_respects_limit(pre: TerminalOutputView, chunk: Seq<char>, l: u64)
    ensures
        byte_len(append_model(pre, chunk, Some(l)).output) <= l,
        byte_len(pre.output + chunk) > l ==> append_model(pre, chunk, Some(l)).truncated,
{
    let combined = pre.output + chunk;
    let cb = encode_utf8(combined);
    if cb.len() <= l {
    } else {
        encode_utf8_valid_utf8(combined);
        lemma_boundary_at_or_after(cb, cb.len() - l);
        let start = boundary_at_or_after(cb, cb.len() - l);
        valid_utf8_split(cb, start);
        let sub = cb.subrange(start, cb.len() as int);
        decode_utf8_encode_utf8(sub);
    }
}

/// Once truncated, a buffer stays truncated: no later append, however
/// small, clears the flag.
pub proof fn lemma_append_keeps_truncated(
    pre: TerminalOutputView,
    chunk: Seq<char>,
    limit: Option<u64>,
)
    requires
        pre.truncated,
    ensures
        append_model(pre, chunk, limit).truncated,
{
}

} // verus!
