//! Framing an HTTP response head out of a byte stream, then streaming the
//! body; the response-side counterpart of
//! [`crate::http::http_request_reader`].

use vstd::prelude::*;

use crate::http::head::{
    find_head_end, header_views, parse_response_block, resp_head_of, spec_head_end, HttpHeader,
    RespHeadV,
};
use crate::http::{
    ascii_eq_ci, spec_ascii_eq_ci, Error, NbError, SourceError, SourceRead, MAX_HEAD_LENGTH,
};

verus! {

/// A parsed response head: the numeric status code and the headers.
#[derive(Debug)]
pub struct HttpResponseHead {
    pub code: u16,
    pub headers: Vec<HttpHeader>,
}

/// What becomes of a delimited head block: the head when it parses, and
/// `HttpParseError` otherwise.
pub open spec fn resp_block_outcome(r: Result<HttpResponseHead, NbError>, block: Seq<u8>) -> bool {
    match resp_head_of(block) {
        Option::None => r == Err::<HttpResponseHead, NbError>(
            NbError::Other(Error::HttpParseError),
        ),
        Option::Some(_) => r is Ok,
    }
}

/// What it means for a parsed head to carry over a raw parse result.
pub open spec fn resp_head_derived(h: HttpResponseHead, raw: RespHeadV) -> bool {
    &&& h.code == raw.code
    &&& header_views(h.headers@) == raw.headers
}

impl HttpResponseHead {
    /// The value of the first header with the given name, compared without
    /// regard to ASCII case, or `None` when no header has that name.
    pub fn header(&self, name: &[u8]) -> (r: Option<Vec<u8>>)
        ensures
            match r {
                Some(v) => exists|i: int|
                    {
                        &&& 0 <= i < self.headers@.len()
                        &&& spec_ascii_eq_ci((#[trigger] self.headers@[i])@.name, name@)
                        &&& v@ == self.headers@[i]@.value
                        &&& forall|j: int|
                            0 <= j < i ==> !spec_ascii_eq_ci(
                                (#[trigger] self.headers@[j])@.name,
                                name@,
                            )
                    },
                None => forall|i: int|
                    0 <= i < self.headers@.len() ==> !spec_ascii_eq_ci(
                        (#[trigger] self.headers@[i])@.name,
                        name@,
                    ),
            },
    {
        let mut i: usize = 0;
        while i < self.headers.len()
            invariant
                i <= self.headers@.len(),
                forall|j: int|
                    0 <= j < i ==> !spec_ascii_eq_ci((#[trigger] self.headers@[j])@.name, name@),
            decreases self.headers@.len() - i,
        {
            if ascii_eq_ci(name, self.headers[i].name.as_slice()) {
                let v = self.headers[i].value.clone();
                assert(v@ =~= self.headers@[i as int]@.value);
                return Some(v);
            }
            i += 1;
        }
        None
    }
}

/// Wraps a byte source and parses an HTTP response head out of it, then
/// becomes a reader for the response body.
pub struct HttpResponseReader<R> {
    buf: Vec<u8>,
    buf_start: usize,
    head_end: usize,
    found_head: bool,
    in_reader: R,
}

impl<R: SourceRead> HttpResponseReader<R> {
    /// The bytes buffered from the source so far.
    pub closed spec fn spec_buf(&self) -> Seq<u8> {
        self.buf@
    }

    /// Whether a complete head has been parsed.
    pub closed spec fn spec_found(&self) -> bool {
        self.found_head
    }

    /// Where the head ends in the buffered bytes, once found.
    pub closed spec fn spec_head_pos(&self) -> int {
        self.head_end as int
    }

    /// How much of the buffered bytes has been handed out.
    pub closed spec fn spec_start(&self) -> int {
        self.buf_start as int
    }

    /// The reader's invariant; see
    /// [`crate::http::http_request_reader::HttpRequestReader::wf`].
    pub open spec fn wf(&self) -> bool {
        &&& self.spec_buf().len() <= MAX_HEAD_LENGTH
        &&& if self.spec_found() {
            &&& spec_head_end(self.spec_buf()) == Some(self.spec_head_pos())
            &&& self.spec_head_pos() <= self.spec_start() <= self.spec_buf().len()
        } else {
            self.spec_start() == 0
        }
    }

    /// Wraps the source, with nothing buffered yet.
    pub fn from_read(in_reader: R) -> (r: Self)
        ensures
            r.wf(),
            !r.spec_found(),
            r.spec_buf() == Seq::<u8>::empty(),
    {
        HttpResponseReader {
            buf: Vec::new(),
            buf_start: 0,
            head_end: 0,
            found_head: false,
            in_reader,
        }
    }

    /// Parses the delimited head block `buf[..end]` and records success.
    fn accept_head(&mut self, end: usize) -> (r: Result<HttpResponseHead, NbError>)
        requires
            old(self).wf(),
            spec_head_end(old(self).spec_buf()) == Some(end as int),
            !old(self).spec_found() ==> end <= old(self).spec_buf().len(),
            old(self).spec_found() ==> end as int == old(self).spec_head_pos(),
        ensures
            final(self).wf(),
            final(self).spec_buf() == old(self).spec_buf(),
            final(self).spec_found() == old(self).spec_found() || r is Ok,
            old(self).spec_found() ==> *final(self) == *old(self),
            r matches Err(e) ==> e is Other,
            resp_block_outcome(r, old(self).spec_buf().take(end as int)),
            r matches Ok(h) ==> {
                &&& final(self).spec_found()
                &&& final(self).spec_head_pos() == end as int
                &&& resp_head_of(final(self).spec_buf().take(end as int)) matches Some(raw)
                    && resp_head_derived(h, raw)
            },
    {
        proof {
            crate::http::head::lemma_head_end_bounds(
                self.spec_buf(),
                0,
                crate::http::head::ScanMode::Prefix,
            );
        }
        let mut block: Vec<u8> = Vec::new();
        let mut i: usize = 0;
        while i < end
            invariant
                i <= end,
                end <= self.spec_buf().len(),
                self == old(self),
                block@ == self.spec_buf().take(i as int),
            decreases end - i,
        {
            block.push(self.buf[i]);
            assert(block@ =~= self.spec_buf().take(i + 1));
            i += 1;
        }
        let parsed = parse_response_block(block.as_slice());
        match parsed {
            None => Err(NbError::Other(Error::HttpParseError)),
            Some(raw) => {
                let head = HttpResponseHead { code: raw.code, headers: raw.headers };
                if !self.found_head {
                    self.found_head = true;
                    self.head_end = end;
                    self.buf_start = end;
                }
                Ok(head)
            },
        }
    }

    /// Reads from the source until the buffered bytes hold a complete
    /// response head, and parses it; the response-side counterpart of
    /// [`crate::http::http_request_reader::HttpRequestReader::read_head`],
    /// with the same promises: once the buffered bytes delimit a block,
    /// the result is decided by that block alone.
    pub fn read_head(&mut self) -> (r: Result<HttpResponseHead, NbError>)
        requires
            old(self).wf(),
        ensures
            final(self).wf(),
            old(self).spec_buf() == final(self).spec_buf().take(old(self).spec_buf().len() as int),
            old(self).spec_found() ==> *final(self) == *old(self),
            old(self).spec_found() ==> resp_block_outcome(
                r,
                old(self).spec_buf().take(old(self).spec_head_pos()),
            ),
            !old(self).spec_found() ==> (match spec_head_end(final(self).spec_buf()) {
                Option::Some(e) => resp_block_outcome(r, final(self).spec_buf().take(e)),
                Option::None => true,
            }),
            !old(self).spec_found() && spec_head_end(old(self).spec_buf()) is None && old(
                self,
            ).spec_buf().len() >= MAX_HEAD_LENGTH ==> r == Err::<HttpResponseHead, NbError>(
                NbError::Other(Error::HeaderBufferFull),
            ),
            r matches Ok(h) ==> {
                &&& final(self).spec_found()
                &&& spec_head_end(final(self).spec_buf()) == Some(final(self).spec_head_pos())
                &&& resp_head_of(final(self).spec_buf().take(final(self).spec_head_pos()))
                    matches Some(raw) && resp_head_derived(h, raw)
            },
            r == Err::<HttpResponseHead, NbError>(NbError::WouldBlock)
                ==> !final(self).spec_found() && spec_head_end(final(self).spec_buf()) is None,
    {
        proof {
            let obuf = old(self).spec_buf();
            assert(obuf.take(obuf.len() as int) =~= obuf);
        }
        if self.found_head {
            let end = self.head_end;
            return self.accept_head(end);
        }
        match find_head_end(&self.buf) {
            Some(end) => self.accept_head(end),
            None => {
                if self.buf.len() >= MAX_HEAD_LENGTH {
                    return Err(NbError::Other(Error::HeaderBufferFull));
                }
                let want = MAX_HEAD_LENGTH - self.buf.len();
                let bytes = match self.in_reader.read_some(want) {
                    Ok(bytes) => bytes,
                    Err(SourceError::WouldBlock) => {
                        return Err(NbError::WouldBlock);
                    },
                    Err(SourceError::Failed) => {
                        return Err(NbError::Other(Error::ReadError));
                    },
                };
                if bytes.len() == 0 {
                    return Err(NbError::Other(Error::UnexpectedEof));
                }
                let n: usize = if bytes.len() > want {
                    want
                } else {
                    bytes.len()
                };
                let ghost before = self.buf@;
                let mut i: usize = 0;
                while i < n
                    invariant
                        i <= n,
                        n <= bytes@.len(),
                        self.buf@ == before + bytes@.take(i as int),
                        before + bytes@.take(i as int) == self.spec_buf(),
                        self.buf@.len() <= MAX_HEAD_LENGTH,
                        before.len() + n <= MAX_HEAD_LENGTH,
                        self.buf_start == old(self).buf_start,
                        self.found_head == old(self).found_head,
                        self.head_end == old(self).head_end,
                    decreases n - i,
                {
                    self.buf.push(bytes[i]);
                    assert(self.buf@ =~= before + bytes@.take(i + 1));
                    i += 1;
                }
                proof {
                    assert(before =~= self.spec_buf().take(before.len() as int));
                }
                match find_head_end(&self.buf) {
                    Some(end) => self.accept_head(end),
                    None => Err(NbError::WouldBlock),
                }
            },
        }
    }

    /// Streams the response body; the response-side counterpart of
    /// [`crate::http::http_request_reader::HttpRequestReader::read`].
    pub fn read(&mut self, max_len: usize) -> (r: Result<Vec<u8>, NbError>)
        requires
            old(self).wf(),
        ensures
            final(self).wf(),
            !old(self).spec_found() ==> r == Err::<Vec<u8>, NbError>(
                NbError::Other(Error::ReadBeforeHeadParsed),
            ) && *final(self) == *old(self),
            r matches Ok(v) ==> v@.len() <= max_len,
            old(self).spec_found() && old(self).spec_start() < old(self).spec_buf().len() ==> {
                &&& final(self).spec_buf() == old(self).spec_buf()
                &&& r matches Ok(v) && v@ == old(self).spec_buf().subrange(
                    old(self).spec_start(),
                    if old(self).spec_start() + max_len <= old(self).spec_buf().len() {
                        old(self).spec_start() + max_len
                    } else {
                        old(self).spec_buf().len() as int
                    },
                )
                &&& final(self).spec_start() == old(self).spec_start() + (if old(self).spec_start()
                    + max_len <= old(self).spec_buf().len() {
                    max_len as int
                } else {
                    old(self).spec_buf().len() - old(self).spec_start()
                })
            },
            old(self).spec_found() && old(self).spec_start() == old(self).spec_buf().len()
                ==> final(self).spec_buf() == old(self).spec_buf() && final(self).spec_start()
                == old(self).spec_start(),
    {
        if !self.found_head {
            return Err(NbError::Other(Error::ReadBeforeHeadParsed));
        }
        if self.buf_start < self.buf.len() {
            let left = self.buf.len() - self.buf_start;
            let n: usize = if max_len < left {
                max_len
            } else {
                left
            };
            let mut v: Vec<u8> = Vec::new();
            let mut i: usize = 0;
            while i < n
                invariant
                    i <= n,
                    self.buf_start + n <= self.buf@.len(),
                    self.buf@.len() <= MAX_HEAD_LENGTH,
                    self == old(self),
                    v@ == self.buf@.subrange(self.buf_start as int, self.buf_start + i),
                decreases n - i,
            {
                v.push(self.buf[self.buf_start + i]);
                assert(v@ =~= self.buf@.subrange(self.buf_start as int, self.buf_start + i + 1));
                i += 1;
            }
            self.buf_start += n;
            return Ok(v);
        }
        match self.in_reader.read_some(max_len) {
            Ok(mut bytes) => {
                bytes.truncate(max_len);
                Ok(bytes)
            },
            Err(SourceError::WouldBlock) => Err(NbError::WouldBlock),
            Err(SourceError::Failed) => Err(NbError::Other(Error::ReadError)),
        }
    }

    /// Consumes the reader and hands the underlying source back.
    pub fn free(self) -> (r: R) {
        self.in_reader
    }
}

} // verus!
