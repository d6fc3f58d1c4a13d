//! Delimiting and parsing an HTTP head.
//!
//! The framer's own job is to find where the head ends in a byte stream:
//! after any leading empty lines, the first empty line that follows a
//! nonempty line closes the head. That scan is defined and verified here,
//! and it is stable under chunking: once a prefix of a stream delimits the
//! head, every longer prefix delimits the same bytes. Parsing the content
//! of the delimited block is handed to `httparse` behind the two trusted
//! wrappers at the bottom.

use vstd::prelude::*;

use crate::http::MAX_HEADERS;

verus! {

/// Line feed.
pub const LF: u8 = 10;

/// Carriage return.
pub const CR: u8 = 13;

/// Where the head-end scan stands: skipping empty lines before the first
/// real line, at the start of a line, or inside a line.
#[derive(Debug, PartialEq, Eq, Structural, Clone, Copy)]
pub enum ScanMode {
    Prefix,
    LineStart,
    InLine,
}

/// An ordering on scan modes for termination: a scan can switch to a
/// lower-ranked mode without consuming a byte, but never back.
pub open spec fn scan_mode_rank(m: ScanMode) -> int {
    match m {
        ScanMode::Prefix => 2,
        ScanMode::LineStart => 1,
        ScanMode::InLine => 0,
    }
}

/// The position one past the empty line that closes the head, scanning
/// from position `p` in mode `m`; `None` while the bytes so far hold no
/// complete head. Lines end at a line feed, with or without a carriage
/// return before it; empty lines before the first nonempty line are
/// skipped, as the parser skips them.
pub open spec fn head_end_at(s: Seq<u8>, p: int, m: ScanMode) -> Option<int>
    decreases s.len() - p, scan_mode_rank(m),
    when 0 <= p <= s.len()
{
    if p >= s.len() {
        None
    } else {
        let b = s[p];
        match m {
            ScanMode::Prefix => {
                if b == LF {
                    head_end_at(s, p + 1, ScanMode::Prefix)
                } else if b == CR {
                    if p + 1 >= s.len() {
                        None
                    } else if s[p + 1] == LF {
                        head_end_at(s, p + 2, ScanMode::Prefix)
                    } else {
                        head_end_at(s, p, ScanMode::InLine)
                    }
                } else {
                    head_end_at(s, p, ScanMode::InLine)
                }
            },
            ScanMode::LineStart => {
                if b == LF {
                    Some(p + 1)
                } else if b == CR {
                    if p + 1 >= s.len() {
                        None
                    } else if s[p + 1] == LF {
                        Some(p + 2)
                    } else {
                        head_end_at(s, p, ScanMode::InLine)
                    }
                } else {
                    head_end_at(s, p, ScanMode::InLine)
                }
            },
            ScanMode::InLine => {
                if b == LF {
                    head_end_at(s, p + 1, ScanMode::LineStart)
                } else {
                    head_end_at(s, p + 1, ScanMode::InLine)
                }
            },
        }
    }
}

/// Where the head of the stream `s` ends, if it is complete: the position
/// one past its closing empty line.
pub open spec fn spec_head_end(s: Seq<u8>) -> Option<int> {
    head_end_at(s, 0, ScanMode::Prefix)
}

/// A found head end lies within the scanned bytes and past the scan
/// position.
pub proof fn lemma_head_end_bounds(s: Seq<u8>, p: int, m: ScanMode)
    requires
        0 <= p <= s.len(),
        head_end_at(s, p, m) is Some,
    ensures
        head_end_at(s, p, m) matches Some(e) && p < e <= s.len(),
    decreases s.len() - p, scan_mode_rank(m),
{
    if p < s.len() {
        let b = s[p];
        match m {
            ScanMode::Prefix => {
                if b == LF {
                    lemma_head_end_bounds(s, p + 1, ScanMode::Prefix);
                    assert(head_end_at(s, p, m) matches Some(e) && p < e <= s.len());
                } else if b == CR {
                    if p + 1 < s.len() && s[p + 1] == LF {
                        lemma_head_end_bounds(s, p + 2, ScanMode::Prefix);
                        assert(head_end_at(s, p, m) matches Some(e) && p < e <= s.len());
                    } else if p + 1 < s.len() {
                        lemma_head_end_bounds(s, p, ScanMode::InLine);
                        assert(head_end_at(s, p, m) matches Some(e) && p < e <= s.len());
                    } else {
                        assert(head_end_at(s, p, m) is None);
                        assert(false);
                    }
                } else {
                    lemma_head_end_bounds(s, p, ScanMode::InLine);
                    assert(head_end_at(s, p, m) matches Some(e) && p < e <= s.len());
                }
            },
            ScanMode::LineStart => {
                if b == LF {
                    assert(head_end_at(s, p, m) == Some(p + 1));
                    assert(head_end_at(s, p, m) matches Some(e) && p < e <= s.len());
                } else if b == CR && p + 1 < s.len() && s[p + 1] == LF {
                    assert(head_end_at(s, p, m) == Some(p + 2));
                    assert(head_end_at(s, p, m) matches Some(e) && p < e <= s.len());
                } else if b == CR && p + 1 < s.len() {
                    lemma_head_end_bounds(s, p, ScanMode::InLine);
                    assert(head_end_at(s, p, m) matches Some(e) && p < e <= s.len());
                } else if b == CR {
                    assert(head_end_at(s, p, m) is None);
                    assert(false);
                } else {
                    lemma_head_end_bounds(s, p, ScanMode::InLine);
                    assert(head_end_at(s, p, m) matches Some(e) && p < e <= s.len());
                }
            },
            ScanMode::InLine => {
                if b == LF {
                    lemma_head_end_bounds(s, p + 1, ScanMode::LineStart);
                    assert(head_end_at(s, p, m) matches Some(e) && p < e <= s.len());
                } else {
                    lemma_head_end_bounds(s, p + 1, ScanMode::InLine);
                    assert(head_end_at(s, p, m) matches Some(e) && p < e <= s.len());
                }
            },
        }
    } else {
        assert(head_end_at(s, p, m) is None);
        assert(false);
    }
}

/// The head-end scan is stable under extension: a head delimited in a
/// prefix of a stream is delimited at the same place in the whole stream.
pub proof fn lemma_head_end_stable(a: Seq<u8>, b: Seq<u8>, p: int, m: ScanMode)
    requires
        0 <= p <= a.len(),
        a.len() <= b.len(),
        a == b.take(a.len() as int),
        head_end_at(a, p, m) is Some,
    ensures
        head_end_at(b, p, m) == head_end_at(a, p, m),
    decreases a.len() - p, scan_mode_rank(m),
{
    assert(forall|i: int| 0 <= i < a.len() ==> a[i] == #[trigger] b[i]);
    if p < a.len() {
        let x = a[p];
        assert(b[p] == x);
        match m {
            ScanMode::Prefix => {
                if x == LF {
                    lemma_head_end_stable(a, b, p + 1, ScanMode::Prefix);
                    assert(head_end_at(b, p, m) == head_end_at(a, p, m));
                } else if x == CR {
                    if p + 1 < a.len() && a[p + 1] == LF {
                        assert(b[p + 1] == a[p + 1]);
                        lemma_head_end_stable(a, b, p + 2, ScanMode::Prefix);
                        assert(head_end_at(b, p, m) == head_end_at(a, p, m));
                    } else if p + 1 < a.len() {
                        assert(b[p + 1] == a[p + 1]);
                        lemma_head_end_stable(a, b, p, ScanMode::InLine);
                        assert(head_end_at(b, p, m) == head_end_at(a, p, m));
                    } else {
                        assert(head_end_at(a, p, m) is None);
                        assert(false);
                    }
                } else {
                    lemma_head_end_stable(a, b, p, ScanMode::InLine);
                    assert(head_end_at(b, p, m) == head_end_at(a, p, m));
                }
            },
            ScanMode::LineStart => {
                if x == LF {
                    assert(head_end_at(a, p, m) == Some(p + 1));
                    assert(head_end_at(b, p, m) == Some(p + 1));
                } else if x == CR && p + 1 < a.len() && a[p + 1] == LF {
                    assert(b[p + 1] == a[p + 1]);
                    assert(head_end_at(a, p, m) == Some(p + 2));
                    assert(head_end_at(b, p, m) == Some(p + 2));
                } else if x == CR && p + 1 < a.len() {
                    assert(b[p + 1] == a[p + 1]);
                    lemma_head_end_stable(a, b, p, ScanMode::InLine);
                    assert(head_end_at(b, p, m) == head_end_at(a, p, m));
                } else if x == CR {
                    assert(head_end_at(a, p, m) is None);
                    assert(false);
                } else {
                    lemma_head_end_stable(a, b, p, ScanMode::InLine);
                    assert(head_end_at(b, p, m) == head_end_at(a, p, m));
                }
            },
            ScanMode::InLine => {
                if x == LF {
                    lemma_head_end_stable(a, b, p + 1, ScanMode::LineStart);
                    assert(head_end_at(b, p, m) == head_end_at(a, p, m));
                } else {
                    lemma_head_end_stable(a, b, p + 1, ScanMode::InLine);
                    assert(head_end_at(b, p, m) == head_end_at(a, p, m));
                }
            },
        }
    } else {
        assert(head_end_at(a, p, m) is None);
        assert(false);
    }
}

/// HTTP round trip, the delimiting half: the head block a stream yields
/// is a function of the stream alone, not of how it arrives. Once some
/// prefix of a stream delimits a complete head, every longer prefix
/// delimits exactly the same block bytes, so a framer fed byte by byte
/// and one fed everything at once parse the same block.
pub proof fn lemma_head_chunking_independent(a: Seq<u8>, b: Seq<u8>)
    requires
        a.len() <= b.len(),
        a == b.take(a.len() as int),
        spec_head_end(a) is Some,
    ensures
        spec_head_end(b) == spec_head_end(a),
        spec_head_end(a) matches Some(e) && a.take(e) == b.take(e),
{
    lemma_head_end_stable(a, b, 0, ScanMode::Prefix);
    lemma_head_end_bounds(a, 0, ScanMode::Prefix);
    if let Some(e) = spec_head_end(a) {
        assert(a.take(e) =~= b.take(e));
    }
}

/// Finds where the head ends in the buffered bytes, if it is complete;
/// the executable twin of [`spec_head_end`].
pub fn find_head_end(s: &Vec<u8>) -> (r: Option<usize>)
    ensures
        match r {
            Some(e) => spec_head_end(s@) == Some(e as int) && 0 < e <= s@.len(),
            None => spec_head_end(s@) is None,
        },
{
    let mut p: usize = 0;
    let mut m = ScanMode::Prefix;
    let mut res: Option<usize> = None;
    loop
        invariant_except_break
            0 <= p <= s@.len(),
            head_end_at(s@, p as int, m) == spec_head_end(s@),
        ensures
            match res {
                Some(e) => spec_head_end(s@) == Some(e as int) && 0 < e <= s@.len(),
                None => spec_head_end(s@) is None,
            },
        decreases s@.len() - p, scan_mode_rank(m),
    {
        if p >= s.len() {
            res = None;
            break ;
        }
        let b = s[p];
        match m {
            ScanMode::Prefix => {
                if b == LF {
                    p += 1;
                } else if b == CR {
                    if p + 1 >= s.len() {
                        res = None;
                        break ;
                    } else if s[p + 1] == LF {
                        p += 2;
                    } else {
                        m = ScanMode::InLine;
                    }
                } else {
                    m = ScanMode::InLine;
                }
            },
            ScanMode::LineStart => {
                if b == LF {
                    res = Some(p + 1);
                    break ;
                } else if b == CR {
                    if p + 1 >= s.len() {
                        res = None;
                        break ;
                    } else if s[p + 1] == LF {
                        res = Some(p + 2);
                        break ;
                    } else {
                        m = ScanMode::InLine;
                    }
                } else {
                    m = ScanMode::InLine;
                }
            },
            ScanMode::InLine => {
                if b == LF {
                    p += 1;
                    m = ScanMode::LineStart;
                } else {
                    p += 1;
                }
            },
        }
    }
    res
}

/// One header of a parsed head: its name and its value, as plain bytes.
#[derive(Debug)]
pub struct HttpHeader {
    pub name: Vec<u8>,
    pub value: Vec<u8>,
}

/// The mathematical shadow of [`HttpHeader`].
#[verifier::ext_equal]
pub struct HeaderV {
    pub name: Seq<u8>,
    pub value: Seq<u8>,
}

impl View for HttpHeader {
    type V = HeaderV;

    open spec fn view(&self) -> HeaderV {
        HeaderV { name: self.name@, value: self.value@ }
    }
}

/// The elementwise view of a header list.
pub open spec fn header_views(hs: Seq<HttpHeader>) -> Seq<HeaderV> {
    hs.map_values(|h: HttpHeader| h@)
}

/// A request head as the parser hands it over, before the method string is
/// interpreted.
#[derive(Debug)]
pub struct RawRequestHead {
    pub method: Vec<u8>,
    pub path: Vec<u8>,
    pub version: u8,
    pub headers: Vec<HttpHeader>,
}

/// The mathematical shadow of [`RawRequestHead`].
#[verifier::ext_equal]
pub struct ReqHeadV {
    pub method: Seq<u8>,
    pub path: Seq<u8>,
    pub version: u8,
    pub headers: Seq<HeaderV>,
}

impl View for RawRequestHead {
    type V = ReqHeadV;

    open spec fn view(&self) -> ReqHeadV {
        ReqHeadV {
            method: self.method@,
            path: self.path@,
            version: self.version,
            headers: header_views(self.headers@),
        }
    }
}

/// A response head as the parser hands it over.
#[derive(Debug)]
pub struct RawResponseHead {
    pub code: u16,
    pub headers: Vec<HttpHeader>,
}

/// The mathematical shadow of [`RawResponseHead`].
#[verifier::ext_equal]
pub struct RespHeadV {
    pub code: u16,
    pub headers: Seq<HeaderV>,
}

impl View for RawResponseHead {
    type V = RespHeadV;

    open spec fn view(&self) -> RespHeadV {
        RespHeadV { code: self.code, headers: header_views(self.headers@) }
    }
}

/// What parsing a delimited block as a request head yields: the head, or
/// nothing when the block is not a well-formed request head with at most
/// [`MAX_HEADERS`] headers. A function of the block bytes alone.
pub uninterp spec fn req_head_of(b: Seq<u8>) -> Option<ReqHeadV>;

/// What parsing a delimited block as a response head yields; the
/// response-side counterpart of [`req_head_of`].
pub uninterp spec fn resp_head_of(b: Seq<u8>) -> Option<RespHeadV>;

/// Relies on `httparse::Request::parse`, called with a table of
/// [`MAX_HEADERS`] headers: the outcome is a function of the block bytes
/// alone, and a block it cannot parse completely yields nothing.
#[verifier::external_body]
pub fn parse_request_block(block: &[u8]) -> (r: Option<RawRequestHead>)
    ensures
        match r {
            Some(h) => req_head_of(block@) == Some(h@),
            None => req_head_of(block@) is None,
        },
{
    let mut headers = [httparse::EMPTY_HEADER; MAX_HEADERS];
    let mut req = httparse::Request::new(&mut headers);
    match req.parse(block) {
        Ok(httparse::Status::Complete(_)) => Some(RawRequestHead {
            method: req.method.unwrap_or("").as_bytes().to_vec(),
            path: req.path.unwrap_or("").as_bytes().to_vec(),
            version: req.version.unwrap_or(0),
            headers: req.headers.iter().map(
                |h| HttpHeader { name: h.name.as_bytes().to_vec(), value: h.value.to_vec() },
            ).collect(),
        }),
        _ => None,
    }
}

/// Relies on `httparse::Response::parse`, called with a table of
/// [`MAX_HEADERS`] headers: the outcome is a function of the block bytes
/// alone, and a block it cannot parse completely yields nothing.
#[verifier::external_body]
pub fn parse_response_block(block: &[u8]) -> (r: Option<RawResponseHead>)
    ensures
        match r {
            Some(h) => resp_head_of(block@) == Some(h@),
            None => resp_head_of(block@) is None,
        },
{
    let mut headers = [httparse::EMPTY_HEADER; MAX_HEADERS];
    let mut resp = httparse::Response::new(&mut headers);
    match resp.parse(block) {
        Ok(httparse::Status::Complete(_)) => Some(RawResponseHead {
            code: resp.code.unwrap_or(0),
            headers: resp.headers.iter().map(
                |h| HttpHeader { name: h.name.as_bytes().to_vec(), value: h.value.to_vec() },
            ).collect(),
        }),
        _ => None,
    }
}

} // verus!
