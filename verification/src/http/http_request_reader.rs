//! Framing an HTTP request head out of a byte stream, then streaming the
//! body.
//!
//! The reader buffers bytes from its source until the buffered bytes hold
//! a complete head (see [`crate::http::head`]), parses the head, and from
//! then on first replays whatever body bytes it over-read into its buffer
//! before passing reads through to the source.

use vstd::prelude::*;

use crate::http::head::{
    find_head_end, header_views, parse_request_block, req_head_of, spec_head_end, HttpHeader,
    ReqHeadV,
};
use crate::http::{
    ascii_eq_ci, bytes_eq, spec_ascii_eq_ci, Error, NbError, SourceError, SourceRead,
    MAX_HEAD_LENGTH,
};

verus! {

/// The request methods of HTTP.
#[derive(Debug, PartialEq, Eq, Structural, Clone, Copy)]
pub enum HttpMethod {
    Get,
    Post,
    Put,
    Delete,
    Head,
    Connect,
    Options,
    Trace,
    Patch,
}

/// The bytes a request line spells each method with.
pub open spec fn spec_method_bytes(m: HttpMethod) -> Seq<u8> {
    match m {
        HttpMethod::Get => seq!['G' as u8, 'E' as u8, 'T' as u8],
        HttpMethod::Post => seq!['P' as u8, 'O' as u8, 'S' as u8, 'T' as u8],
        HttpMethod::Put => seq!['P' as u8, 'U' as u8, 'T' as u8],
        HttpMethod::Delete => seq!['D' as u8, 'E' as u8, 'L' as u8, 'E' as u8, 'T' as u8, 'E' as u8],
        HttpMethod::Head => seq!['H' as u8, 'E' as u8, 'A' as u8, 'D' as u8],
        HttpMethod::Connect => seq![
            'C' as u8,
            'O' as u8,
            'N' as u8,
            'N' as u8,
            'E' as u8,
            'C' as u8,
            'T' as u8,
        ],
        HttpMethod::Options => seq![
            'O' as u8,
            'P' as u8,
            'T' as u8,
            'I' as u8,
            'O' as u8,
            'N' as u8,
            'S' as u8,
        ],
        HttpMethod::Trace => seq!['T' as u8, 'R' as u8, 'A' as u8, 'C' as u8, 'E' as u8],
        HttpMethod::Patch => seq!['P' as u8, 'A' as u8, 'T' as u8, 'C' as u8, 'H' as u8],
    }
}

/// The bytes a request line spells the method with.
fn method_bytes(m: HttpMethod) -> (r: Vec<u8>)
    ensures
        r@ == spec_method_bytes(m),
{
    let mut v: Vec<u8> = Vec::new();
    match m {
        HttpMethod::Get => {
            v.push('G' as u8);
            v.push('E' as u8);
            v.push('T' as u8);
        },
        HttpMethod::Post => {
            v.push('P' as u8);
            v.push('O' as u8);
            v.push('S' as u8);
            v.push('T' as u8);
        },
        HttpMethod::Put => {
            v.push('P' as u8);
            v.push('U' as u8);
            v.push('T' as u8);
        },
        HttpMethod::Delete => {
            v.push('D' as u8);
            v.push('E' as u8);
            v.push('L' as u8);
            v.push('E' as u8);
            v.push('T' as u8);
            v.push('E' as u8);
        },
        HttpMethod::Head => {
            v.push('H' as u8);
            v.push('E' as u8);
            v.push('A' as u8);
            v.push('D' as u8);
        },
        HttpMethod::Connect => {
            v.push('C' as u8);
            v.push('O' as u8);
            v.push('N' as u8);
            v.push('N' as u8);
            v.push('E' as u8);
            v.push('C' as u8);
            v.push('T' as u8);
        },
        HttpMethod::Options => {
            v.push('O' as u8);
            v.push('P' as u8);
            v.push('T' as u8);
            v.push('I' as u8);
            v.push('O' as u8);
            v.push('N' as u8);
            v.push('S' as u8);
        },
        HttpMethod::Trace => {
            v.push('T' as u8);
            v.push('R' as u8);
            v.push('A' as u8);
            v.push('C' as u8);
            v.push('E' as u8);
        },
        HttpMethod::Patch => {
            v.push('P' as u8);
            v.push('A' as u8);
            v.push('T' as u8);
            v.push('C' as u8);
            v.push('H' as u8);
        },
    }
    assert(v@ =~= spec_method_bytes(m));
    v
}

/// The canonical spelling of each method, for printing.
pub open spec fn spec_method_name(m: HttpMethod) -> Seq<char> {
    match m {
        HttpMethod::Get => "GET"@,
        HttpMethod::Post => "POST"@,
        HttpMethod::Put => "PUT"@,
        HttpMethod::Delete => "DELETE"@,
        HttpMethod::Head => "HEAD"@,
        HttpMethod::Connect => "CONNECT"@,
        HttpMethod::Options => "OPTIONS"@,
        HttpMethod::Trace => "TRACE"@,
        HttpMethod::Patch => "PATCH"@,
    }
}

impl HttpMethod {
    /// The method's canonical spelling.
    pub fn name(&self) -> (r: &'static str)
        ensures
            r@ == spec_method_name(*self),
    {
        match self {
            HttpMethod::Get => "GET",
            HttpMethod::Post => "POST",
            HttpMethod::Put => "PUT",
            HttpMethod::Delete => "DELETE",
            HttpMethod::Head => "HEAD",
            HttpMethod::Connect => "CONNECT",
            HttpMethod::Options => "OPTIONS",
            HttpMethod::Trace => "TRACE",
            HttpMethod::Patch => "PATCH",
        }
    }

    /// The method the given bytes spell, or `UnknownHttpMethod` when they
    /// spell none of them.
    pub fn from_str(s: &[u8]) -> (r: Result<HttpMethod, Error>)
        ensures
            r matches Ok(m) ==> s@ == spec_method_bytes(m),
            r is Err ==> r == Err::<HttpMethod, Error>(Error::UnknownHttpMethod) && forall|
                m: HttpMethod,
            | s@ != spec_method_bytes(m),
    {
        if bytes_eq(s, method_bytes(HttpMethod::Get).as_slice()) {
            return Ok(HttpMethod::Get);
        }
        if bytes_eq(s, method_bytes(HttpMethod::Post).as_slice()) {
            return Ok(HttpMethod::Post);
        }
        if bytes_eq(s, method_bytes(HttpMethod::Put).as_slice()) {
            return Ok(HttpMethod::Put);
        }
        if bytes_eq(s, method_bytes(HttpMethod::Delete).as_slice()) {
            return Ok(HttpMethod::Delete);
        }
        if bytes_eq(s, method_bytes(HttpMethod::Head).as_slice()) {
            return Ok(HttpMethod::Head);
        }
        if bytes_eq(s, method_bytes(HttpMethod::Connect).as_slice()) {
            return Ok(HttpMethod::Connect);
        }
        if bytes_eq(s, method_bytes(HttpMethod::Options).as_slice()) {
            return Ok(HttpMethod::Options);
        }
        if bytes_eq(s, method_bytes(HttpMethod::Trace).as_slice()) {
            return Ok(HttpMethod::Trace);
        }
        if bytes_eq(s, method_bytes(HttpMethod::Patch).as_slice()) {
            return Ok(HttpMethod::Patch);
        }
        proof {
            assert forall|m: HttpMethod| s@ != spec_method_bytes(m) by {
                match m {
                    HttpMethod::Get => {},
                    HttpMethod::Post => {},
                    HttpMethod::Put => {},
                    HttpMethod::Delete => {},
                    HttpMethod::Head => {},
                    HttpMethod::Connect => {},
                    HttpMethod::Options => {},
                    HttpMethod::Trace => {},
                    HttpMethod::Patch => {},
                }
            }
        }
        Err(Error::UnknownHttpMethod)
    }
}

/// A parsed request head: the method, path, minor HTTP version, and
/// headers, all owned.
#[derive(Debug)]
pub struct HttpRequestHead {
    pub method: HttpMethod,
    pub path: Vec<u8>,
    pub version: u8,
    pub headers: Vec<HttpHeader>,
}

/// Whether a raw parse result names a method this library knows.
pub open spec fn spec_known_method(raw: ReqHeadV) -> bool {
    exists|m: HttpMethod| spec_method_bytes(m) == raw.method
}

/// What becomes of a delimited head block: the head when it parses and
/// its method is known, and which error otherwise.
pub open spec fn req_block_outcome(r: Result<HttpRequestHead, NbError>, block: Seq<u8>) -> bool {
    match req_head_of(block) {
        Option::None => r == Err::<HttpRequestHead, NbError>(NbError::Other(Error::HttpParseError)),
        Option::Some(raw) => if spec_known_method(raw) {
            r is Ok
        } else {
            r == Err::<HttpRequestHead, NbError>(NbError::Other(Error::UnknownHttpMethod))
        },
    }
}

/// What it means for a parsed head to carry over a raw parse result: the
/// method bytes spell the method, and path, version and headers are taken
/// as they are.
pub open spec fn req_head_derived(h: HttpRequestHead, raw: ReqHeadV) -> bool {
    &&& spec_method_bytes(h.method) == raw.method
    &&& h.path@ == raw.path
    &&& h.version == raw.version
    &&& header_views(h.headers@) == raw.headers
}

impl HttpRequestHead {
    /// The value of the first header with the given name, compared without
    /// regard to ASCII case, or `None` when no header has that name.
    pub fn header(&self, name: &[u8]) -> (r: Option<Vec<u8>>)
        ensures
            match r {
                Some(v) => exists|i: int|
                    {
                        &&& 0 <= i < self.headers@.len()
                        &&& spec_ascii_eq_ci((#[trigger] self.headers@[i])@.name, name@)
                        &&& v@ == self.headers@[i]@.value
                        &&& forall|j: int|
                            0 <= j < i ==> !spec_ascii_eq_ci(
                                (#[trigger] self.headers@[j])@.name,
                                name@,
                            )
                    },
                None => forall|i: int|
                    0 <= i < self.headers@.len() ==> !spec_ascii_eq_ci(
                        (#[trigger] self.headers@[i])@.name,
                        name@,
                    ),
            },
    {
        let mut i: usize = 0;
        while i < self.headers.len()
            invariant
                i <= self.headers@.len(),
                forall|j: int|
                    0 <= j < i ==> !spec_ascii_eq_ci((#[trigger] self.headers@[j])@.name, name@),
            decreases self.headers@.len() - i,
        {
            if ascii_eq_ci(name, self.headers[i].name.as_slice()) {
                let v = self.headers[i].value.clone();
                assert(v@ =~= self.headers@[i as int]@.value);
                return Some(v);
            }
            i += 1;
        }
        None
    }
}

/// Wraps a byte source and parses an HTTP request head out of it, then
/// becomes a reader for the request body.
///
/// Call [`Self::read_head`] until it stops answering `WouldBlock`; then
/// stream the body with [`Self::read`].
pub struct HttpRequestReader<R> {
    buf: Vec<u8>,
    buf_start: usize,
    head_end: usize,
    found_head: bool,
    in_reader: R,
}

impl<R: SourceRead> HttpRequestReader<R> {
    /// The bytes buffered from the source so far.
    pub closed spec fn spec_buf(&self) -> Seq<u8> {
        self.buf@
    }

    /// Whether a complete head has been parsed.
    pub closed spec fn spec_found(&self) -> bool {
        self.found_head
    }

    /// Where the head ends in the buffered bytes, once found.
    pub closed spec fn spec_head_pos(&self) -> int {
        self.head_end as int
    }

    /// How much of the buffered bytes has been handed out.
    pub closed spec fn spec_start(&self) -> int {
        self.buf_start as int
    }

    /// The reader's invariant: the buffer is bounded; before the head is
    /// found nothing has been handed out; once found, the recorded head
    /// end is exactly where the scan delimits the buffered bytes, and
    /// replay stands between it and the end of the buffer.
    pub open spec fn wf(&self) -> bool {
        &&& self.spec_buf().len() <= MAX_HEAD_LENGTH
        &&& if self.spec_found() {
            &&& spec_head_end(self.spec_buf()) == Some(self.spec_head_pos())
            &&& self.spec_head_pos() <= self.spec_start() <= self.spec_buf().len()
        } else {
            self.spec_start() == 0
        }
    }

    /// Wraps the source, with nothing buffered yet.
    pub fn from_read(in_reader: R) -> (r: Self)
        ensures
            r.wf(),
            !r.spec_found(),
            r.spec_buf() == Seq::<u8>::empty(),
    {
        HttpRequestReader {
            buf: Vec::new(),
            buf_start: 0,
            head_end: 0,
            found_head: false,
            in_reader,
        }
    }

    /// Parses the delimited head block `buf[..end]` and records success.
    fn accept_head(&mut self, end: usize) -> (r: Result<HttpRequestHead, NbError>)
        requires
            old(self).wf(),
            spec_head_end(old(self).spec_buf()) == Some(end as int),
            !old(self).spec_found() ==> end <= old(self).spec_buf().len(),
            old(self).spec_found() ==> end as int == old(self).spec_head_pos(),
        ensures
            final(self).wf(),
            final(self).spec_buf() == old(self).spec_buf(),
            final(self).spec_found() == old(self).spec_found() || r is Ok,
            old(self).spec_found() ==> *final(self) == *old(self),
            r matches Err(e) ==> e is Other,
            req_block_outcome(r, old(self).spec_buf().take(end as int)),
            r matches Ok(h) ==> {
                &&& final(self).spec_found()
                &&& final(self).spec_head_pos() == end as int
                &&& req_head_of(final(self).spec_buf().take(end as int)) matches Some(raw)
                    && req_head_derived(h, raw)
            },
    {
        proof {
            crate::http::head::lemma_head_end_bounds(
                self.spec_buf(),
                0,
                crate::http::head::ScanMode::Prefix,
            );
        }
        let mut block: Vec<u8> = Vec::new();
        let mut i: usize = 0;
        while i < end
            invariant
                i <= end,
                end <= self.spec_buf().len(),
                self == old(self),
                block@ == self.spec_buf().take(i as int),
            decreases end - i,
        {
            block.push(self.buf[i]);
            assert(block@ =~= self.spec_buf().take(i + 1));
            i += 1;
        }
        let parsed = parse_request_block(block.as_slice());
        match parsed {
            None => Err(NbError::Other(Error::HttpParseError)),
            Some(raw) => {
                let ghost rawv = raw@;
                match HttpMethod::from_str(raw.method.as_slice()) {
                    Err(e) => {
                        proof {
                            assert(!spec_known_method(rawv));
                        }
                        Err(NbError::Other(e))
                    },
                    Ok(method) => {
                        proof {
                            assert(spec_method_bytes(method) == rawv.method);
                            assert(spec_known_method(rawv));
                        }
                        let head = HttpRequestHead {
                            method,
                            path: raw.path,
                            version: raw.version,
                            headers: raw.headers,
                        };
                        if !self.found_head {
                            self.found_head = true;
                            self.head_end = end;
                            self.buf_start = end;
                        }
                        Ok(head)
                    },
                }
            },
        }
    }

    /// Reads from the source until the buffered bytes hold a complete
    /// request head, and parses it.
    ///
    /// Answers `WouldBlock` while the head is still incomplete (or the
    /// source itself would block); `UnexpectedEof` when the source ends
    /// first; `HeaderBufferFull` when [`MAX_HEAD_LENGTH`] bytes hold no
    /// complete head. Once parsed, every later call hands the head back
    /// again without touching the source.
    ///
    /// On success the head is exactly what the delimited head block of the
    /// buffered stream parses to, wherever the chunk boundaries fell; on
    /// `WouldBlock` the buffered bytes hold no complete head yet. Once the
    /// buffered bytes delimit a block, the result is decided by that block
    /// alone: the head when it parses and its method is known, else
    /// `HttpParseError` or `UnknownHttpMethod`; in particular, calls after
    /// a success change nothing and hand the same head back.
    pub fn read_head(&mut self) -> (r: Result<HttpRequestHead, NbError>)
        requires
            old(self).wf(),
        ensures
            final(self).wf(),
            old(self).spec_buf() == final(self).spec_buf().take(old(self).spec_buf().len() as int),
            old(self).spec_found() ==> *final(self) == *old(self),
            old(self).spec_found() ==> req_block_outcome(
                r,
                old(self).spec_buf().take(old(self).spec_head_pos()),
            ),
            !old(self).spec_found() ==> (match spec_head_end(final(self).spec_buf()) {
                Option::Some(e) => req_block_outcome(r, final(self).spec_buf().take(e)),
                Option::None => true,
            }),
            !old(self).spec_found() && spec_head_end(old(self).spec_buf()) is None && old(
                self,
            ).spec_buf().len() >= MAX_HEAD_LENGTH ==> r == Err::<HttpRequestHead, NbError>(
                NbError::Other(Error::HeaderBufferFull),
            ),
            r matches Ok(h) ==> {
                &&& final(self).spec_found()
                &&& spec_head_end(final(self).spec_buf()) == Some(final(self).spec_head_pos())
                &&& req_head_of(final(self).spec_buf().take(final(self).spec_head_pos()))
                    matches Some(raw) && req_head_derived(h, raw)
            },
            r == Err::<HttpRequestHead, NbError>(NbError::WouldBlock)
                ==> !final(self).spec_found() && spec_head_end(final(self).spec_buf()) is None,
    {
        proof {
            let obuf = old(self).spec_buf();
            assert(obuf.take(obuf.len() as int) =~= obuf);
        }
        if self.found_head {
            let end = self.head_end;
            return self.accept_head(end);
        }
        match find_head_end(&self.buf) {
            Some(end) => self.accept_head(end),
            None => {
                if self.buf.len() >= MAX_HEAD_LENGTH {
                    return Err(NbError::Other(Error::HeaderBufferFull));
                }
                let want = MAX_HEAD_LENGTH - self.buf.len();
                let bytes = match self.in_reader.read_some(want) {
                    Ok(bytes) => bytes,
                    Err(SourceError::WouldBlock) => {
                        return Err(NbError::WouldBlock);
                    },
                    Err(SourceError::Failed) => {
                        return Err(NbError::Other(Error::ReadError));
                    },
                };
                if bytes.len() == 0 {
                    return Err(NbError::Other(Error::UnexpectedEof));
                }
                let n: usize = if bytes.len() > want {
                    want
                } else {
                    bytes.len()
                };
                let ghost before = self.buf@;
                let mut i: usize = 0;
                while i < n
                    invariant
                        i <= n,
                        n <= bytes@.len(),
                        self.buf@ == before + bytes@.take(i as int),
                        before + bytes@.take(i as int) == self.spec_buf(),
                        self.buf@.len() <= MAX_HEAD_LENGTH,
                        before.len() + n <= MAX_HEAD_LENGTH,
                        self.buf_start == old(self).buf_start,
                        self.found_head == old(self).found_head,
                        self.head_end == old(self).head_end,
                    decreases n - i,
                {
                    self.buf.push(bytes[i]);
                    assert(self.buf@ =~= before + bytes@.take(i + 1));
                    i += 1;
                }
                proof {
                    assert(before =~= self.spec_buf().take(before.len() as int));
                }
                match find_head_end(&self.buf) {
                    Some(end) => self.accept_head(end),
                    None => Err(NbError::WouldBlock),
                }
            },
        }
    }

    /// Streams the request body. Must be called only after
    /// [`Self::read_head`] has succeeded.
    ///
    /// While body bytes that arrived with the head remain buffered, they
    /// are replayed, in order and without loss; after that, reads pass
    /// through to the source. At most `max_len` bytes come back; none
    /// while the answer is `WouldBlock`.
    pub fn read(&mut self, max_len: usize) -> (r: Result<Vec<u8>, NbError>)
        requires
            old(self).wf(),
        ensures
            final(self).wf(),
            !old(self).spec_found() ==> r == Err::<Vec<u8>, NbError>(
                NbError::Other(Error::ReadBeforeHeadParsed),
            ) && *final(self) == *old(self),
            r matches Ok(v) ==> v@.len() <= max_len,
            old(self).spec_found() && old(self).spec_start() < old(self).spec_buf().len() ==> {
                &&& final(self).spec_buf() == old(self).spec_buf()
                &&& r matches Ok(v) && v@ == old(self).spec_buf().subrange(
                    old(self).spec_start(),
                    if old(self).spec_start() + max_len <= old(self).spec_buf().len() {
                        old(self).spec_start() + max_len
                    } else {
                        old(self).spec_buf().len() as int
                    },
                )
                &&& final(self).spec_start() == old(self).spec_start() + (if old(self).spec_start()
                    + max_len <= old(self).spec_buf().len() {
                    max_len as int
                } else {
                    old(self).spec_buf().len() - old(self).spec_start()
                })
            },
            old(self).spec_found() && old(self).spec_start() == old(self).spec_buf().len()
                ==> final(self).spec_buf() == old(self).spec_buf() && final(self).spec_start()
                == old(self).spec_start(),
    {
        if !self.found_head {
            return Err(NbError::Other(Error::ReadBeforeHeadParsed));
        }
        if self.buf_start < self.buf.len() {
            let left = self.buf.len() - self.buf_start;
            let n: usize = if max_len < left {
                max_len
            } else {
                left
            };
            let mut v: Vec<u8> = Vec::new();
            let mut i: usize = 0;
            while i < n
                invariant
                    i <= n,
                    self.buf_start + n <= self.buf@.len(),
                    self.buf@.len() <= MAX_HEAD_LENGTH,
                    self == old(self),
                    v@ == self.buf@.subrange(
                        self.buf_start as int,
                        self.buf_start + i,
                    ),
                decreases n - i,
            {
                v.push(self.buf[self.buf_start + i]);
                assert(v@ =~= self.buf@.subrange(self.buf_start as int, self.buf_start + i + 1));
                i += 1;
            }
            self.buf_start += n;
            return Ok(v);
        }
        match self.in_reader.read_some(max_len) {
            Ok(mut bytes) => {
                bytes.truncate(max_len);
                Ok(bytes)
            },
            Err(SourceError::WouldBlock) => Err(NbError::WouldBlock),
            Err(SourceError::Failed) => Err(NbError::Other(Error::ReadError)),
        }
    }

    /// Consumes the reader and hands the underlying source back.
    pub fn free(self) -> (r: R) {
        self.in_reader
    }
}

} // verus!
