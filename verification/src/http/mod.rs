//! Helpers for working with HTTP requests and responses on top of a byte
//! stream, such as a connected socket.

pub mod head;
pub mod http_request_reader;
pub mod http_response_reader;

use vstd::prelude::*;

verus! {

/// The most bytes a head may occupy before it must have ended.
pub const MAX_HEAD_LENGTH: usize = 8_000;

/// The most headers a head may carry; any further ones fail the parse.
pub const MAX_HEADERS: usize = 32;

/// What can go wrong while framing an HTTP head out of a byte stream.
#[derive(Debug, PartialEq, Eq, Structural, Clone, Copy)]
pub enum Error {
    /// The source ran out of data before the head was complete.
    UnexpectedEof,
    /// The head buffer filled up before the head was complete.
    HeaderBufferFull,
    /// The request line carried a method this library does not know.
    UnknownHttpMethod,
    /// `read` was called before the head was parsed.
    ReadBeforeHeadParsed,
    /// The head block was delimited but did not parse as an HTTP head.
    HttpParseError,
    /// The underlying source failed.
    ReadError,
}

/// A byte source the HTTP framer can drain, such as a connected socket.
pub trait SourceRead {
    /// Reads up to `max` bytes. An empty vector means the source is at end
    /// of stream.
    fn read_some(&mut self, max: usize) -> (r: Result<Vec<u8>, SourceError>);
}

/// The ways a [`SourceRead`] can decline to produce bytes.
#[derive(Debug, PartialEq, Eq, Structural, Clone, Copy)]
pub enum SourceError {
    /// No data yet; try again later.
    WouldBlock,
    /// The source failed.
    Failed,
}

/// An [`Error`], or a request to try again later.
#[derive(Debug, PartialEq, Eq, Structural, Clone, Copy)]
pub enum NbError {
    /// Nothing is wrong, but the head or the body is not ready yet.
    WouldBlock,
    /// The operation failed.
    Other(Error),
}

/// The byte with an ASCII capital letter taken to its small form; other
/// bytes unchanged.
pub open spec fn spec_lower(b: u8) -> u8 {
    if 65 <= b <= 90 {
        (b + 32) as u8
    } else {
        b
    }
}

/// Byte-string equality up to ASCII case, as HTTP compares header names.
pub open spec fn spec_ascii_eq_ci(a: Seq<u8>, b: Seq<u8>) -> bool {
    a.len() == b.len() && forall|i: int| 0 <= i < a.len() ==> spec_lower(#[trigger] a[i])
        == spec_lower(b[i])
}

/// Compares two byte strings up to ASCII case.
pub fn ascii_eq_ci(a: &[u8], b: &[u8]) -> (r: bool)
    ensures
        r == spec_ascii_eq_ci(a@, b@),
{
    if a.len() != b.len() {
        return false;
    }
    let mut i: usize = 0;
    while i < a.len()
        invariant
            i <= a@.len(),
            a@.len() == b@.len(),
            forall|j: int| 0 <= j < i ==> spec_lower(#[trigger] a@[j]) == spec_lower(b@[j]),
        decreases a@.len() - i,
    {
        let x = a[i];
        let y = b[i];
        let xl: u8 = if 65 <= x && x <= 90 {
            x + 32
        } else {
            x
        };
        let yl: u8 = if 65 <= y && y <= 90 {
            y + 32
        } else {
            y
        };
        if xl != yl {
            return false;
        }
        i += 1;
    }
    true
}

/// Plain byte-string equality.
pub fn bytes_eq(a: &[u8], b: &[u8]) -> (r: bool)
    ensures
        r == (a@ == b@),
{
    if a.len() != b.len() {
        return false;
    }
    let mut i: usize = 0;
    while i < a.len()
        invariant
            i <= a@.len(),
            a@.len() == b@.len(),
            forall|j: int| 0 <= j < i ==> a@[j] == #[trigger] b@[j],
        decreases a@.len() - i,
    {
        if a[i] != b[i] {
            return false;
        }
        i += 1;
    }
    proof {
        assert(a@ =~= b@);
    }
    true
}

} // verus!
