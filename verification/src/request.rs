//! The incremental request parser.

use bytes::{ByteBuf, MutByteBuf};
use vstd::prelude::*;

use crate::buffer::{advance, in_order, remaining, unread, unread_slice, written};
use crate::error::HttpError;
use crate::headers::Headers;
use crate::machine::{run, BuilderView, Outcome, Phase, RequestView, COLON, CR, HT, LF, SP};
use crate::method::HttpMethod;
use crate::text::{decode_token, token_text};

verus! {

/// Which part of a request the parser is reading. While it reads a header's
/// value, the state holds that header's name.
#[derive(Debug)]
pub enum ParserStates {
    Verb,
    Path,
    Version,
    HeaderTitle,
    HeaderContent { title: String },
    HeadersNewLine { title: String },
    EndHeaders,
    Complete,
}

impl View for ParserStates {
    type V = Phase;

    open spec fn view(&self) -> Phase {
        match self {
            ParserStates::Verb => Phase::Verb,
            ParserStates::Path => Phase::Path,
            ParserStates::Version => Phase::Version,
            ParserStates::HeaderTitle => Phase::HeaderTitle,
            ParserStates::HeaderContent { title } => Phase::HeaderContent { title: title@ },
            ParserStates::HeadersNewLine { title } => Phase::HeadersNewLine { title: title@ },
            ParserStates::EndHeaders => Phase::EndHeaders,
            ParserStates::Complete => Phase::Complete,
        }
    }
}

/// A parsed request line with its headers.
#[derive(Debug)]
pub struct HttpRequest {
    pub method: HttpMethod,
    pub path: String,
    pub headers: Headers,
}

impl View for HttpRequest {
    type V = RequestView;

    open spec fn view(&self) -> RequestView {
        RequestView { method: self.method, path: self.path@, headers: self.headers@ }
    }
}

/// The progress made on one request: the fields parsed so far, the state of
/// the parser, and the bytes of a token that a fragment's end cut in two.
#[derive(Debug)]
pub struct HttpRequestBuilder {
    method: Option<HttpMethod>,
    path: Option<String>,
    version: Option<String>,
    headers: Headers,
    state: ParserStates,
    temporary_data: Vec<u8>,
}

/// The characters of a string that may be absent.
pub open spec fn text_of(s: Option<String>) -> Option<Seq<char>> {
    match s {
        Some(s) => Some(s@),
        None => None,
    }
}

impl View for HttpRequestBuilder {
    type V = BuilderView;

    closed spec fn view(&self) -> BuilderView {
        BuilderView {
            method: self.method,
            path: text_of(self.path),
            version: text_of(self.version),
            headers: self.headers@,
            state: self.state@,
            carry: self.temporary_data@,
        }
    }
}

/// How a scan of one fragment ends.
#[derive(Debug)]
pub enum Scan {
    /// The fragment ran out before the request was complete.
    Suspended { builder: HttpRequestBuilder },
    /// The request is complete after `consumed` bytes of the fragment.
    Finished { request: HttpRequest, consumed: usize },
}

/// Whether `r` is what a scan of `input` returns when the parsing of `input`
/// ends as `outcome`.
pub open spec fn scan_agrees(r: Result<Scan, HttpError>, outcome: Outcome, input: Seq<u8>) -> bool {
    match outcome {
        Outcome::Incomplete { builder } => r matches Ok(Scan::Suspended { builder: b }) && b@
            == builder,
        Outcome::Finished { request, rest } => r matches Ok(Scan::Finished { request: q, consumed })
            && q@ == request && consumed <= input.len() && input.skip(consumed as int) == rest,
        Outcome::Failed { error } => r matches Err(e) && e == error,
    }
}

/// How the parsing of the bytes of a buffer ends. Each variant hands the
/// buffer back.
#[allow(inconsistent_fields)]
pub enum HttpResult {
    /// The bytes ran out before the request was complete. The buffer is back
    /// in write mode and empty: every byte of it has been taken, and those of
    /// an unfinished token are kept in the builder.
    Http1Incomplete { buffer: MutByteBuf, request_builder: HttpRequestBuilder },
    /// A request is complete. The buffer holds the bytes that follow it.
    Http1Request { buffer: ByteBuf, request: HttpRequest },
    /// A request with the method token `PRI` is complete: the peer asks for
    /// HTTP/2. The buffer holds the bytes that follow the request.
    Http2Upgrade { buffer: ByteBuf, request: HttpRequest },
}

/// Whether `r` is what the parser returns for a buffer when the parsing of its
/// unread bytes ends as `outcome`. A buffer handed back in read mode is in
/// order.
pub open spec fn parse_agrees(r: Result<HttpResult, HttpError>, outcome: Outcome) -> bool {
    match outcome {
        Outcome::Incomplete { builder } => r matches Ok(
            HttpResult::Http1Incomplete { buffer, request_builder },
        ) && request_builder@ == builder && written(buffer) == Seq::<u8>::empty(),
        Outcome::Finished { request, rest } => if request.method == HttpMethod::HTTP2 {
            r matches Ok(HttpResult::Http2Upgrade { buffer, request: q }) && q@ == request
                && unread(buffer) == rest && in_order(buffer)
        } else {
            r matches Ok(HttpResult::Http1Request { buffer, request: q }) && q@ == request
                && unread(buffer) == rest && in_order(buffer)
        },
        Outcome::Failed { error } => r matches Err(e) && e == error,
    }
}

/// Whether `r` is what the parser returns for one byte, `data[i]`, and `after`
/// the builder that it leaves, when the state machine answers that byte with
/// `expected`: the builder holds the new state but for the bytes of the
/// current token that lie in `data`, which begin at the index returned.
pub open spec fn step_agrees(
    r: Result<usize, HttpError>,
    after: BuilderView,
    expected: Result<BuilderView, HttpError>,
    data: Seq<u8>,
    i: int,
) -> bool {
    match expected {
        Ok(next) => r matches Ok(begin) && begin <= i + 1 && after.pending(
            data.subrange(begin as int, i + 1),
        ) == next,
        Err(error) => r matches Err(e) && e == error,
    }
}

impl HttpRequestBuilder {
    /// A builder at the start of a request.
    pub fn new() -> (r: HttpRequestBuilder)
        ensures
            r@ == BuilderView::fresh(),
    {
        HttpRequestBuilder {
            method: None,
            path: None,
            version: None,
            headers: Headers::new(),
            state: ParserStates::Verb,
            temporary_data: Vec::new(),
        }
    }

    /// The method, once it has been parsed.
    pub fn method(&self) -> (r: Result<HttpMethod, HttpError>)
        ensures
            r == match self@.method {
                Some(method) => Ok::<HttpMethod, HttpError>(method),
                None => Err::<HttpMethod, HttpError>(HttpError::MethodNotDeclared),
            },
    {
        match self.method {
            Some(method) => Ok(method),
            None => Err(HttpError::MethodNotDeclared),
        }
    }

    /// The path, once it has been parsed.
    pub fn path(&self) -> (r: Option<&String>)
        ensures
            match r {
                Some(path) => self@.path == Some(path@),
                None => self@.path is None,
            },
    {
        self.path.as_ref()
    }

    /// The version, once it has been parsed.
    pub fn version(&self) -> (r: Option<&String>)
        ensures
            match r {
                Some(version) => self@.version == Some(version@),
                None => self@.version is None,
            },
    {
        self.version.as_ref()
    }

    /// The headers parsed so far.
    pub fn headers(&self) -> (r: &Headers)
        ensures
            r@ == self@.headers,
    {
        &self.headers
    }

    /// Makes the request out of the parsed fields. Fails where the method or
    /// the path has not been parsed.
    pub fn build(self) -> (r: Result<HttpRequest, HttpError>)
        ensures
            match self@.build() {
                Ok(request) => r matches Ok(q) && q@ == request,
                Err(error) => r matches Err(e) && e == error,
            },
    {
        match self.method {
            None => Err(HttpError::MethodNotDeclared),
            Some(method) => match self.path {
                None => Err(HttpError::PathMissing),
                Some(path) => Ok(HttpRequest { method, path, headers: self.headers }),
            },
        }
    }

    /// Takes the token that ends here: the bytes carried over from earlier
    /// fragments, then the bytes of `data` from `start` up to `end`. Returns its
    /// text and leaves nothing carried over.
    fn read_value(&mut self, data: &[u8], start: usize, end: usize) -> (r: Result<
        String,
        HttpError,
    >)
        requires
            start <= end <= data@.len(),
        ensures
            final(self)@ == old(self)@.enter(old(self)@.state),
            match token_text(old(self)@.carry + data@.subrange(start as int, end as int)) {
                Ok(text) => r matches Ok(s) && s@ == text,
                Err(error) => r matches Err(e) && e == error,
            },
    {
        let mut bytes: Vec<u8> = Vec::new();
        std::mem::swap(&mut self.temporary_data, &mut bytes);
        bytes.extend_from_slice(&data[start..end]);
        assert(bytes@ =~= old(self)@.carry + data@.subrange(start as int, end as int));
        decode_token(bytes)
    }

    /// Whether a line feed ends the header section here: whether the current
    /// token, the bytes carried over and then those of `data` from `start` up
    /// to `end`, is empty or one carriage return.
    fn ends_headers(&self, data: &[u8], start: usize, end: usize) -> (r: bool)
        requires
            start <= end <= data@.len(),
        ensures
            r == crate::machine::ends_headers(
                self@.carry + data@.subrange(start as int, end as int),
            ),
    {
        let carried = self.temporary_data.len();
        let here = end - start;
        let ghost token = self@.carry + data@.subrange(start as int, end as int);
        if carried == 0 && here == 0 {
            true
        } else if carried == 1 && here == 0 {
            let first = self.temporary_data[0];
            assert(first == CR ==> token =~= seq![CR]);
            first == CR
        } else if carried == 0 && here == 1 {
            let first = data[start];
            assert(token[0] == first);
            assert(first == CR ==> token =~= seq![CR]);
            first == CR
        } else {
            false
        }
    }

    /// Takes the byte `data[i]` in the phase `HeaderTitle`, whatever phase the
    /// builder is in. The current token begins at `data[start]`.
    fn title_byte(&mut self, data: &[u8], start: usize, i: usize) -> (r: Result<usize, HttpError>)
        requires
            start <= i < data@.len(),
        ensures
            step_agrees(
                r,
                final(self)@,
                crate::machine::step_title(
                    (BuilderView { state: Phase::HeaderTitle, ..old(self)@ }).pending(
                        data@.subrange(start as int, i as int),
                    ),
                    data@[i as int],
                ),
                data@,
                i as int,
            ),
    {
        let byte = data[i];
        if byte == LF && self.ends_headers(data, start, i) {
            self.temporary_data.clear();
            self.state = ParserStates::Complete;
            Ok(i + 1)
        } else if byte == COLON {
            let name = self.read_value(data, start, i)?;
            self.state = ParserStates::HeaderContent { title: name.as_str().to_uppercase() };
            Ok(i + 1)
        } else {
            self.state = ParserStates::HeaderTitle;
            assert(self@.carry + data@.subrange(start as int, i + 1) =~= (self@.carry
                + data@.subrange(start as int, i as int)).push(byte));
            Ok(start)
        }
    }

    /// Takes the byte `data[i]`. The current token begins at `data[start]`.
    fn step(&mut self, data: &[u8], start: usize, i: usize) -> (r: Result<usize, HttpError>)
        requires
            start <= i < data@.len(),
        ensures
            step_agrees(
                r,
                final(self)@,
                crate::machine::step(
                    old(self)@.pending(data@.subrange(start as int, i as int)),
                    data@[i as int],
                ),
                data@,
                i as int,
            ),
    {
        let byte = data[i];
        let ghost kept = (old(self)@.carry + data@.subrange(start as int, i as int)).push(byte);
        assert(old(self)@.carry + data@.subrange(start as int, i + 1) =~= kept);
        let mut state = ParserStates::Complete;
        std::mem::swap(&mut self.state, &mut state);
        match state {
            ParserStates::Verb => {
                if byte == SP {
                    let verb = self.read_value(data, start, i)?;
                    let method = HttpMethod::parse(verb.as_str())?;
                    self.method = Some(method);
                    self.state = ParserStates::Path;
                    Ok(i + 1)
                } else {
                    self.state = ParserStates::Verb;
                    Ok(start)
                }
            },
            ParserStates::Path => {
                if byte == SP {
                    let path = self.read_value(data, start, i)?;
                    self.path = Some(path);
                    self.state = ParserStates::Version;
                    Ok(i + 1)
                } else {
                    self.state = ParserStates::Path;
                    Ok(start)
                }
            },
            ParserStates::Version => {
                if byte == LF {
                    let version = self.read_value(data, start, i)?;
                    self.version = Some(version);
                    self.state = ParserStates::HeaderTitle;
                    Ok(i + 1)
                } else {
                    self.state = ParserStates::Version;
                    Ok(start)
                }
            },
            ParserStates::HeaderTitle => self.title_byte(data, start, i),
            ParserStates::HeaderContent { title } => {
                if byte == LF {
                    self.state = ParserStates::HeadersNewLine { title };
                } else {
                    self.state = ParserStates::HeaderContent { title };
                }
                Ok(start)
            },
            ParserStates::HeadersNewLine { title } => {
                if byte == SP || byte == HT {
                    self.state = ParserStates::HeaderContent { title };
                    Ok(start)
                } else {
                    let value = self.read_value(data, start, i)?;
                    self.headers.append(title, value);
                    if byte == LF {
                        self.state = ParserStates::Complete;
                        Ok(i + 1)
                    } else if byte == CR {
                        self.state = ParserStates::EndHeaders;
                        Ok(i + 1)
                    } else {
                        self.title_byte(data, i, i)
                    }
                }
            },
            ParserStates::EndHeaders => {
                if byte == LF {
                    self.temporary_data.clear();
                    self.state = ParserStates::Complete;
                    Ok(i + 1)
                } else {
                    Err(HttpError::MalformedHeaderSection)
                }
            },
            ParserStates::Complete => {
                self.temporary_data.extend_from_slice(&data[start..i]);
                assert(self@.carry =~= old(self)@.carry + data@.subrange(start as int, i as int));
                Ok(i + 1)
            },
        }
    }

    /// Whether the request is complete.
    fn is_complete(&self) -> (r: bool)
        ensures
            r == (self@.state is Complete),
    {
        match self.state {
            ParserStates::Complete => true,
            _ => false,
        }
    }

    /// Parses one fragment, `data`, from the state that the builder is in.
    /// Returns the request if the fragment completes it, with the number of
    /// bytes that it took; else the builder, with the unfinished token carried
    /// over, to go on with at the next fragment.
    pub fn scan(self, data: &[u8]) -> (r: Result<Scan, HttpError>)
        ensures
            scan_agrees(r, run(self@, data@), data@),
    {
        let mut builder = self;
        let mut start: usize = 0;
        let mut i: usize = 0;
        assert(data@.skip(0) =~= data@);
        while i < data.len()
            invariant
                start <= i <= data@.len(),
                run(self@, data@) == run(
                    builder@.pending(data@.subrange(start as int, i as int)),
                    data@.skip(i as int),
                ),
            decreases data@.len() - i,
        {
            assert(data@.skip(i as int).skip(1) =~= data@.skip(i + 1));
            start = builder.step(data, start, i)?;
            i += 1;
            if builder.is_complete() {
                let request = builder.build()?;
                return Ok(Scan::Finished { request, consumed: i });
            }
        }
        let ghost before = builder@;
        builder.temporary_data.extend_from_slice(&data[start..i]);
        assert(builder@.carry =~= before.carry + data@.subrange(start as int, i as int));
        Ok(Scan::Suspended { builder })
    }

    /// Parses the unread bytes of `buffer` from the state that the builder is
    /// in. Returns the request if they complete it, for HTTP/1 or as the
    /// request to change to HTTP/2, with the buffer at the first byte after
    /// it; else the builder to go on with, and the buffer ready for the next
    /// read. The buffer has to be in order, as every buffer is that was
    /// turned to read mode and not reset since.
    pub fn parse(self, buffer: ByteBuf) -> (r: Result<HttpResult, HttpError>)
        requires
            in_order(buffer),
        ensures
            parse_agrees(r, run(self@, unread(buffer))),
    {
        let mut buffer = buffer;
        let scanned = if remaining(&buffer) > 0 {
            self.scan(unread_slice(&buffer))
        } else {
            Ok(Scan::Suspended { builder: self })
        };
        match scanned? {
            Scan::Suspended { builder } => Ok(
                HttpResult::Http1Incomplete { buffer: buffer.flip(), request_builder: builder },
            ),
            Scan::Finished { request, consumed } => {
                advance(&mut buffer, consumed);
                match request.method {
                    HttpMethod::HTTP2 => Ok(HttpResult::Http2Upgrade { buffer, request }),
                    _ => Ok(HttpResult::Http1Request { buffer, request }),
                }
            },
        }
    }
}

} // verus!
