//! Line assembly for the newline-delimited serial protocol.
//!
//! The serial port is read one byte at a time; each read outcome is fed to
//! [`SerialIo::feed`], which decides whether the line goes on, is complete, or
//! failed. A finished line is decoded as UTF-8 and trimmed by [`SerialIo::finish`].

use vstd::prelude::*;
use vstd::utf8::{valid_utf8, decode_utf8};

verus! {

/// Maximum bytes kept of one serial line; the rest of a longer line is dropped.
pub const MAX_LINE: usize = 256;

/// Outcome of one single-byte read from the port.
#[derive(Debug, Clone, Copy, PartialEq, Eq, Structural)]
pub enum ReadOutcome {
    /// One byte arrived.
    Byte(u8),
    /// The read returned no single byte.
    Nothing,
    /// The read failed.
    Failed,
}

/// What the line reader does after a read outcome.
#[derive(Debug, Clone, Copy, PartialEq, Eq, Structural)]
pub enum LineStatus {
    /// Read another byte.
    NeedMore,
    /// The line is finished; its bytes are in the buffer.
    Complete,
    /// A read failed; the line is abandoned.
    ReadError,
}

/// A line terminator: `\n` or `\r`.
pub open spec fn is_line_end(b: u8) -> bool {
    b == 10u8 || b == 13u8
}

/// The bytes kept of a line whose bytes (terminator excluded) are `line`:
/// its first `MAX_LINE` bytes.
pub open spec fn kept_prefix(line: Seq<u8>) -> Seq<u8> {
    if line.len() <= MAX_LINE { line } else { line.take(MAX_LINE as int) }
}

/// `char::is_whitespace`: the Unicode `White_Space` characters.
pub open spec fn is_whitespace(c: char) -> bool {
    ||| ('\u{9}' <= c && c <= '\u{d}')
    ||| c == ' '
    ||| c == '\u{85}'
    ||| c == '\u{a0}'
    ||| c == '\u{1680}'
    ||| ('\u{2000}' <= c && c <= '\u{200a}')
    ||| c == '\u{2028}'
    ||| c == '\u{2029}'
    ||| c == '\u{202f}'
    ||| c == '\u{205f}'
    ||| c == '\u{3000}'
}

/// `s` without its leading whitespace.
pub open spec fn trim_start_ws(s: Seq<char>) -> Seq<char>
    decreases s.len(),
{
    if s.len() > 0 && is_whitespace(s[0]) {
        trim_start_ws(s.drop_first())
    } else {
        s
    }
}

/// `s` without its trailing whitespace.
pub open spec fn trim_end_ws(s: Seq<char>) -> Seq<char>
    decreases s.len(),
{
    if s.len() > 0 && is_whitespace(s.last()) {
        trim_end_ws(s.drop_last())
    } else {
        s
    }
}

/// `s` without leading and trailing whitespace (`str::trim`).
pub open spec fn trim_ws(s: Seq<char>) -> Seq<char> {
    trim_end_ws(trim_start_ws(s))
}

/// `std::str::from_utf8`, taken as an owned string: `Some` exactly when the
/// bytes are valid UTF-8, holding the characters they encode.
#[verifier::external_body]
fn utf8_string(bytes: &[u8]) -> (r: Option<String>)
    ensures
        r is Some <==> valid_utf8(bytes@),
        r matches Some(s) ==> s@ == decode_utf8(bytes@),
{
    core::str::from_utf8(bytes).ok().map(str::to_owned)
}

/// `str::trim`, taken as an owned string: the string without leading and
/// trailing Unicode whitespace.
#[verifier::external_body]
fn trimmed(s: &str) -> (r: String)
    ensures
        r@ == trim_ws(s@),
{
    s.trim().to_owned()
}

/// Decode bytes as UTF-8 and trim surrounding whitespace; `None` when the
/// bytes are not valid UTF-8.
pub fn decode_line(bytes: &[u8]) -> (r: Option<String>)
    ensures
        r is Some <==> valid_utf8(bytes@),
        r matches Some(s) ==> s@ == trim_ws(decode_utf8(bytes@)),
{
    match utf8_string(bytes) {
        Some(s) => Some(trimmed(s.as_str())),
        None => None,
    }
}

/// Accumulates the bytes of one serial line.
pub struct SerialIo {
    buf: Vec<u8>,
}

impl View for SerialIo {
    type V = Seq<u8>;

    /// The bytes kept of the line so far.
    closed spec fn view(&self) -> Seq<u8> {
        self.buf@
    }
}

impl SerialIo {
    /// The line is within its capacity and holds no terminator.
    pub closed spec fn wf(self) -> bool {
        &&& self.buf@.len() <= MAX_LINE
        &&& forall|i: int| 0 <= i < self.buf@.len() ==> !is_line_end(#[trigger] self.buf@[i])
    }

    /// An empty line buffer.
    pub fn new() -> (s: SerialIo)
        ensures
            s.wf(),
            s@ == Seq::<u8>::empty(),
    {
        SerialIo { buf: Vec::new() }
    }

    /// Take one read outcome.
    ///
    /// A terminator ends the line (and is not kept); any other byte is kept while
    /// the line holds fewer than `MAX_LINE` bytes and dropped after that; an
    /// empty read asks for more; a failed read is an error.
    pub fn feed(&mut self, outcome: ReadOutcome) -> (status: LineStatus)
        requires
            old(self).wf(),
        ensures
            final(self).wf(),
            match outcome {
                ReadOutcome::Byte(b) => if is_line_end(b) {
                    &&& status == LineStatus::Complete
                    &&& final(self)@ == old(self)@
                } else {
                    &&& status == LineStatus::NeedMore
                    &&& final(self)@ == (if old(self)@.len() < MAX_LINE {
                        old(self)@.push(b)
                    } else {
                        old(self)@
                    })
                },
                ReadOutcome::Nothing => {
                    &&& status == LineStatus::NeedMore
                    &&& final(self)@ == old(self)@
                },
                ReadOutcome::Failed => {
                    &&& status == LineStatus::ReadError
                    &&& final(self)@ == old(self)@
                },
            },
    {
        match outcome {
            ReadOutcome::Byte(b) => {
                if b == 10u8 || b == 13u8 {
                    LineStatus::Complete
                } else {
                    if self.buf.len() < MAX_LINE {
                        self.buf.push(b);
                    }
                    LineStatus::NeedMore
                }
            },
            ReadOutcome::Nothing => LineStatus::NeedMore,
            ReadOutcome::Failed => LineStatus::ReadError,
        }
    }

    /// The bytes kept of the line so far.
    pub fn line_bytes(&self) -> (r: &Vec<u8>)
        ensures
            r@ == self@,
    {
        &self.buf
    }

    /// The finished line: its bytes decoded as UTF-8 and trimmed, or the error
    /// text when they are not valid UTF-8.
    pub fn finish(&self) -> (r: Result<String, &'static str>)
        ensures
            r is Ok <==> valid_utf8(self@),
            r matches Ok(s) ==> s@ == trim_ws(decode_utf8(self@)),
            r matches Err(e) ==> e@ == "Invalid UTF-8 on serial line"@,
    {
        match decode_line(self.buf.as_slice()) {
            Some(s) => Ok(s),
            None => Err("Invalid UTF-8 on serial line"),
        }
    }

    /// Empty the buffer for the next line.
    pub fn clear(&mut self)
        ensures
            final(self).wf(),
            final(self)@ == Seq::<u8>::empty(),
    {
        self.buf = Vec::new();
    }
}

/// Every line the reader completes holds at most `MAX_LINE` bytes, none of
/// them a line terminator.
pub proof fn lemma_line_bounded(line: SerialIo)
    requires
        line.wf(),
    ensures
        line@.len() <= MAX_LINE,
        forall|i: int| 0 <= i < line@.len() ==> !is_line_end(#[trigger] line@[i]),
{
}

/// Feeding the bytes of a line one by one keeps exactly its first `MAX_LINE`
/// bytes: if the buffer holds the kept prefix of `line`, then after one more
/// non-terminator byte `b` it holds the kept prefix of `line.push(b)`.
pub proof fn lemma_feed_keeps_prefix(line: Seq<u8>, kept: Seq<u8>, b: u8)
    requires
        kept == kept_prefix(line),
    ensures
        (if kept.len() < MAX_LINE { kept.push(b) } else { kept }) == kept_prefix(line.push(b)),
{
    if line.len() >= MAX_LINE {
        assert(line.push(b).take(MAX_LINE as int) =~= kept);
    } else {
        assert(kept =~= line);
    }
}

} // verus!
