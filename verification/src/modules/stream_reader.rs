//! Framing: how much of a connection's input makes one request.
//!
//! The reader holds no stream. Whoever owns the stream hands it each line
//! as it arrives and is told what to read next.

use crate::decimal::{parse_decimal, parse_usize};
use crate::text::{
    chars_of, find, push_all, same_chars, search, string_of, trim, trimmed,
};
use vstd::prelude::*;
use vstd::slice::slice_subrange;

verus! {

/// The text that `String::from_utf8_lossy` makes of `bytes`.
pub uninterp spec fn lossy_text(bytes: Seq<u8>) -> Seq<char>;

/// `String::from_utf8_lossy`: the text of `bytes`, with each ill-formed
/// sequence replaced by U+FFFD.
#[verifier::external_body]
fn decode_lossy(bytes: &[u8]) -> (text: String)
    ensures
        text@ == lossy_text(bytes@),
{
    String::from_utf8_lossy(bytes).into_owned()
}

/// What the owner of the stream does next.
#[derive(Debug, Clone, Copy, PartialEq, Eq, Structural)]
pub enum FrameStep {
    /// Read one more line, up to and with its line feed, and feed it.
    ReadLine,
    /// The headers are over: read exactly this many bytes and push them as
    /// the body.
    ReadBody(usize),
    /// The request is complete.
    Done,
    /// The declared length of the body is no number: drop the connection.
    Reject,
}

/// What a reader has seen so far.
pub struct Frame {
    /// All lines fed so far, and the body once it was pushed.
    pub text: Seq<char>,
    /// The length of the body that the headers declared last; 0 at first.
    pub content_length: usize,
}

/// Where in `text` the value of the length header begins: just behind the
/// first `Content-Length: `, or, when there is none, just behind the first
/// `content-length: `.
pub open spec fn length_start(text: Seq<char>) -> Option<int> {
    match search(text, "Content-Length: "@, 0) {
        Some(at) => Some(at + "Content-Length: "@.len()),
        None => match search(text, "content-length: "@, 0) {
            Some(at) => Some(at + "content-length: "@.len()),
            None => None,
        },
    }
}

/// The value of the length header of `text`, as it is written: what stands
/// between the header's name and the end of its line. `None` while the
/// header, or the end of its line, has not arrived.
pub open spec fn length_field(text: Seq<char>) -> Option<Seq<char>> {
    match length_start(text) {
        Some(from) => match search(text, "\r\n"@, from) {
            Some(to) => Some(text.subrange(from, to)),
            None => None,
        },
        None => None,
    }
}

/// The step that ends the headers when `content_length` was declared.
pub open spec fn body_step(content_length: usize) -> FrameStep {
    if content_length > 0 {
        FrameStep::ReadBody(content_length)
    } else {
        FrameStep::Done
    }
}

/// The state and the step after `line` arrived in state `frame`.
///
/// The line joins the text. A line that is a bare line end closes the
/// headers. After any other line the length header is looked up in the
/// whole text: its value, trimmed, becomes the declared length, or the
/// request is rejected when that value is no number.
pub open spec fn after_line(frame: Frame, line: Seq<char>) -> (Frame, FrameStep) {
    let text = frame.text + line;
    if line == "\r\n"@ {
        (Frame { text, ..frame }, body_step(frame.content_length))
    } else {
        match length_field(text) {
            None => (Frame { text, ..frame }, FrameStep::ReadLine),
            Some(field) => match parse_decimal(trim(field), usize::MAX as nat) {
                Some(n) => (Frame { text, content_length: n as usize }, FrameStep::ReadLine),
                None => (Frame { text, ..frame }, FrameStep::Reject),
            },
        }
    }
}

/// Collects the raw text of one request from the lines of a connection.
pub struct StreamReader {
    text: Vec<char>,
    content_length: usize,
}

impl View for StreamReader {
    type V = Frame;

    closed spec fn view(&self) -> Frame {
        Frame { text: self.text@, content_length: self.content_length }
    }
}

impl StreamReader {
    /// A reader that has seen nothing.
    pub fn new() -> (out: Self)
        ensures
            out@ == (Frame { text: Seq::empty(), content_length: 0 }),
    {
        Self { text: Vec::new(), content_length: 0 }
    }

    /// The length of the body that the headers declared last.
    pub fn content_length(&self) -> (n: usize)
        ensures
            n == self@.content_length,
    {
        self.content_length
    }

    /// Takes one line of the head of the request and says what to do next.
    pub fn feed_line(&mut self, line: &str) -> (step: FrameStep)
        ensures
            (final(self)@, step) == after_line(old(self)@, line@),
    {
        let chars = chars_of(line);
        push_all(&mut self.text, chars.as_slice());
        if same_chars(chars.as_slice(), chars_of("\r\n").as_slice()) {
            return if self.content_length > 0 {
                FrameStep::ReadBody(self.content_length)
            } else {
                FrameStep::Done
            };
        }
        let upper = chars_of("Content-Length: ");
        let lower = chars_of("content-length: ");
        let text = self.text.as_slice();
        let start: Option<usize> = match find(text, upper.as_slice(), 0) {
            Some(at) => Some(at + upper.len()),
            None => match find(text, lower.as_slice(), 0) {
                Some(at) => Some(at + lower.len()),
                None => None,
            },
        };
        let from: usize = match start {
            Some(from) => from,
            None => {
                return FrameStep::ReadLine;
            },
        };
        let to: usize = match find(text, chars_of("\r\n").as_slice(), from) {
            Some(to) => to,
            None => {
                return FrameStep::ReadLine;
            },
        };
        match parse_usize(trimmed(slice_subrange(text, from, to))) {
            Some(n) => {
                self.content_length = n;
                FrameStep::ReadLine
            },
            None => FrameStep::Reject,
        }
    }

    /// Says what to do when the input ended, or could not be read, before
    /// the headers were closed: the headers count as closed.
    pub fn end_of_input(&self) -> (step: FrameStep)
        ensures
            step == body_step(self@.content_length),
    {
        if self.content_length > 0 {
            FrameStep::ReadBody(self.content_length)
        } else {
            FrameStep::Done
        }
    }

    /// Takes the bytes of the body. Bytes that are no UTF-8 are replaced as
    /// `String::from_utf8_lossy` replaces them.
    pub fn push_body(&mut self, body: &[u8])
        ensures
            final(self)@ == (Frame { text: old(self)@.text + lossy_text(body@), ..old(self)@ }),
    {
        let decoded = decode_lossy(body);
        let chars = chars_of(decoded.as_str());
        push_all(&mut self.text, chars.as_slice());
    }

    /// The raw text of the request: its lines, then its body.
    pub fn into_text(self) -> (text: String)
        ensures
            text@ == self@.text,
    {
        string_of(self.text.as_slice())
    }
}

} // verus!
