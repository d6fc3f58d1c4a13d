//! Tests of the HTTP head framer against scripted byte sources.

use std::collections::VecDeque;

use wifinina::http::http_request_reader::{HttpMethod, HttpRequestHead, HttpRequestReader};
use wifinina::http::http_response_reader::HttpResponseReader;
use wifinina::http::{Error, NbError, SourceError, SourceRead};

/// A byte source that hands out a stream in preset chunks, and then
/// reports end of stream.
struct ScriptedSource {
    chunks: VecDeque<Vec<u8>>,
}

impl ScriptedSource {
    fn new(chunks: Vec<Vec<u8>>) -> ScriptedSource {
        ScriptedSource {
            chunks: chunks.into_iter().collect(),
        }
    }

    fn whole(stream: &[u8]) -> ScriptedSource {
        ScriptedSource::new(vec![stream.to_vec()])
    }

    fn byte_by_byte(stream: &[u8]) -> ScriptedSource {
        ScriptedSource::new(stream.iter().map(|b| vec![*b]).collect())
    }
}

impl SourceRead for ScriptedSource {
    fn read_some(&mut self, max: usize) -> Result<Vec<u8>, SourceError> {
        match self.chunks.front_mut() {
            None => Ok(Vec::new()),
            Some(chunk) => {
                if chunk.len() <= max {
                    Ok(self.chunks.pop_front().unwrap())
                } else {
                    let rest = chunk.split_off(max);
                    let head = std::mem::replace(chunk, rest);
                    Ok(head)
                }
            }
        }
    }
}

fn request_head(source: ScriptedSource) -> (HttpRequestHead, HttpRequestReader<ScriptedSource>) {
    let mut reader = HttpRequestReader::from_read(source);
    loop {
        match reader.read_head() {
            Ok(head) => return (head, reader),
            Err(NbError::WouldBlock) => continue,
            Err(NbError::Other(e)) => panic!("unexpected head error: {:?}", e),
        }
    }
}

fn read_all(reader: &mut HttpRequestReader<ScriptedSource>) -> Vec<u8> {
    let mut body = Vec::new();
    loop {
        match reader.read(64) {
            Ok(bytes) => {
                if bytes.is_empty() {
                    return body;
                }
                body.extend_from_slice(&bytes);
            }
            Err(NbError::WouldBlock) => continue,
            Err(NbError::Other(e)) => panic!("unexpected body error: {:?}", e),
        }
    }
}

const REQUEST: &[u8] = b"GET /x HTTP/1.1\r\nHost: a\r\n\r\nhello";

#[test]
fn request_split_across_two_reads() {
    let source = ScriptedSource::new(vec![REQUEST[..10].to_vec(), REQUEST[10..].to_vec()]);
    let (head, mut reader) = request_head(source);
    assert_eq!(head.method, HttpMethod::Get);
    assert_eq!(head.path.as_slice(), b"/x");
    assert_eq!(head.version, 1);
    assert_eq!(head.headers.len(), 1);
    assert_eq!(head.headers[0].name.as_slice(), b"Host");
    assert_eq!(head.header(b"Host").unwrap().as_slice(), b"a");
    assert_eq!(read_all(&mut reader).as_slice(), b"hello");
}

#[test]
fn byte_by_byte_yields_the_same_head_as_all_at_once() {
    let (head_one, mut reader_one) = request_head(ScriptedSource::byte_by_byte(REQUEST));
    let (head_all, mut reader_all) = request_head(ScriptedSource::whole(REQUEST));
    assert_eq!(head_one.method, head_all.method);
    assert_eq!(head_one.path, head_all.path);
    assert_eq!(head_one.version, head_all.version);
    assert_eq!(head_one.headers.len(), head_all.headers.len());
    for (a, b) in head_one.headers.iter().zip(head_all.headers.iter()) {
        assert_eq!(a.name, b.name);
        assert_eq!(a.value, b.value);
    }
    assert_eq!(read_all(&mut reader_one), read_all(&mut reader_all));
}

#[test]
fn header_lookup_ignores_ascii_case() {
    let (head, _) = request_head(ScriptedSource::whole(REQUEST));
    assert_eq!(head.header(b"hOsT").unwrap().as_slice(), b"a");
    assert!(head.header(b"Content-Length").is_none());
}

#[test]
fn lf_only_line_endings_are_accepted() {
    let stream = b"GET / HTTP/1.1\nHost: b\n\nrest";
    let (head, mut reader) = request_head(ScriptedSource::whole(stream));
    assert_eq!(head.method, HttpMethod::Get);
    assert_eq!(head.header(b"host").unwrap().as_slice(), b"b");
    assert_eq!(read_all(&mut reader).as_slice(), b"rest");
}

#[test]
fn leading_empty_lines_are_skipped() {
    let stream = b"\r\n\r\nGET /y HTTP/1.1\r\n\r\n";
    let (head, _) = request_head(ScriptedSource::whole(stream));
    assert_eq!(head.path.as_slice(), b"/y");
}

#[test]
fn unknown_method_is_rejected() {
    let stream = b"BREW /pot HTTP/1.1\r\n\r\n";
    let mut reader = HttpRequestReader::from_read(ScriptedSource::whole(stream));
    match reader.read_head() {
        Err(NbError::Other(Error::UnknownHttpMethod)) => {}
        other => panic!("expected UnknownHttpMethod, got {:?}", other.map(|h| h.method)),
    }
}

#[test]
fn malformed_head_is_a_parse_error() {
    let stream = b"not http at all\r\n\r\n";
    let mut reader = HttpRequestReader::from_read(ScriptedSource::whole(stream));
    match reader.read_head() {
        Err(NbError::Other(Error::HttpParseError)) => {}
        other => panic!("expected HttpParseError, got {:?}", other.map(|h| h.method)),
    }
}

#[test]
fn eof_before_head_completes() {
    let stream = b"GET / HTTP/1.1\r\nHost";
    let mut reader = HttpRequestReader::from_read(ScriptedSource::whole(stream));
    // The first read buffers the fragment; the next one sees the end of
    // the stream.
    let mut saw_eof = false;
    for _ in 0..4 {
        match reader.read_head() {
            Err(NbError::WouldBlock) => continue,
            Err(NbError::Other(Error::UnexpectedEof)) => {
                saw_eof = true;
                break;
            }
            other => panic!("expected UnexpectedEof, got {:?}", other.map(|h| h.method)),
        }
    }
    assert!(saw_eof);
}

#[test]
fn head_buffer_full_without_a_head() {
    // More than the head buffer's capacity without one empty line.
    let stream = vec![b'a'; 9_000];
    let mut reader = HttpRequestReader::from_read(ScriptedSource::whole(&stream));
    let mut saw_full = false;
    for _ in 0..4 {
        match reader.read_head() {
            Err(NbError::WouldBlock) => continue,
            Err(NbError::Other(Error::HeaderBufferFull)) => {
                saw_full = true;
                break;
            }
            other => panic!("expected HeaderBufferFull, got {:?}", other.map(|h| h.method)),
        }
    }
    assert!(saw_full);
}

#[test]
fn body_read_before_head_is_an_error() {
    let mut reader = HttpRequestReader::from_read(ScriptedSource::whole(REQUEST));
    match reader.read(16) {
        Err(NbError::Other(Error::ReadBeforeHeadParsed)) => {}
        other => panic!("expected ReadBeforeHeadParsed, got {:?}", other),
    }
}

#[test]
fn repeated_read_head_hands_the_same_head_back() {
    let mut reader = HttpRequestReader::from_read(ScriptedSource::whole(REQUEST));
    let first = loop {
        match reader.read_head() {
            Ok(h) => break h,
            Err(NbError::WouldBlock) => continue,
            Err(NbError::Other(e)) => panic!("unexpected head error: {:?}", e),
        }
    };
    let second = reader.read_head().unwrap();
    assert_eq!(first.method, second.method);
    assert_eq!(first.path, second.path);
    // Re-reading the head does not consume body bytes.
    assert_eq!(read_all(&mut reader).as_slice(), b"hello");
}

#[test]
fn method_names_parse_exactly() {
    assert_eq!(HttpMethod::from_str(b"GET").unwrap(), HttpMethod::Get);
    assert_eq!(HttpMethod::from_str(b"POST").unwrap(), HttpMethod::Post);
    assert_eq!(HttpMethod::from_str(b"PUT").unwrap(), HttpMethod::Put);
    assert_eq!(HttpMethod::from_str(b"DELETE").unwrap(), HttpMethod::Delete);
    assert_eq!(HttpMethod::from_str(b"HEAD").unwrap(), HttpMethod::Head);
    assert_eq!(
        HttpMethod::from_str(b"CONNECT").unwrap(),
        HttpMethod::Connect
    );
    assert_eq!(
        HttpMethod::from_str(b"OPTIONS").unwrap(),
        HttpMethod::Options
    );
    assert_eq!(HttpMethod::from_str(b"TRACE").unwrap(), HttpMethod::Trace);
    assert_eq!(HttpMethod::from_str(b"PATCH").unwrap(), HttpMethod::Patch);
    assert_eq!(
        HttpMethod::from_str(b"get").unwrap_err(),
        Error::UnknownHttpMethod
    );
    assert_eq!(
        HttpMethod::from_str(b"BREW").unwrap_err(),
        Error::UnknownHttpMethod
    );
}

#[test]
fn method_names_spell_canonically() {
    assert_eq!(HttpMethod::Get.name(), "GET");
    assert_eq!(HttpMethod::Post.name(), "POST");
    assert_eq!(HttpMethod::Delete.name(), "DELETE");
    assert_eq!(HttpMethod::Patch.name(), "PATCH");
}

#[test]
fn response_head_and_body() {
    let stream = b"HTTP/1.1 200 OK\r\nContent-Length: 5\r\n\r\nworld";
    let mut reader = HttpResponseReader::from_read(ScriptedSource::whole(stream));
    let head = loop {
        match reader.read_head() {
            Ok(h) => break h,
            Err(NbError::WouldBlock) => continue,
            Err(NbError::Other(e)) => panic!("unexpected head error: {:?}", e),
        }
    };
    assert_eq!(head.code, 200);
    assert_eq!(head.header(b"content-length").unwrap().as_slice(), b"5");
    let mut body = Vec::new();
    loop {
        match reader.read(8) {
            Ok(bytes) => {
                if bytes.is_empty() {
                    break;
                }
                body.extend_from_slice(&bytes);
            }
            Err(NbError::WouldBlock) => continue,
            Err(NbError::Other(e)) => panic!("unexpected body error: {:?}", e),
        }
    }
    assert_eq!(body.as_slice(), b"world");
}

#[test]
fn response_byte_by_byte_matches_all_at_once() {
    let stream = b"HTTP/1.1 404 Not Found\r\nX-Reason: gone\r\n\r\n";
    let mut one = HttpResponseReader::from_read(ScriptedSource::byte_by_byte(stream));
    let mut all = HttpResponseReader::from_read(ScriptedSource::whole(stream));
    let head_one = loop {
        match one.read_head() {
            Ok(h) => break h,
            Err(NbError::WouldBlock) => continue,
            Err(NbError::Other(e)) => panic!("unexpected head error: {:?}", e),
        }
    };
    let head_all = all.read_head().unwrap();
    assert_eq!(head_one.code, head_all.code);
    assert_eq!(head_one.headers.len(), head_all.headers.len());
    assert_eq!(
        head_one.header(b"x-reason").unwrap(),
        head_all.header(b"X-Reason").unwrap()
    );
}

/// A source that fails outright.
struct FailingSource;

impl SourceRead for FailingSource {
    fn read_some(&mut self, _max: usize) -> Result<Vec<u8>, SourceError> {
        Err(SourceError::Failed)
    }
}

#[test]
fn failing_source_reports_read_error() {
    let mut reader = HttpRequestReader::from_read(FailingSource);
    match reader.read_head() {
        Err(NbError::Other(Error::ReadError)) => {}
        other => panic!("expected ReadError, got {:?}", other.map(|h| h.method)),
    }
}

#[test]
fn free_returns_the_source() {
    let reader = HttpRequestReader::from_read(ScriptedSource::whole(REQUEST));
    let mut source = reader.free();
    assert_eq!(source.read_some(usize::MAX).unwrap().as_slice(), REQUEST);
}
