//! The request parser as a state machine that takes one byte at a time. This is
//! the mathematical model against which the executable parser is verified.

use vstd::prelude::*;

use crate::error::HttpError;
use crate::headers::append_value;
use crate::method::{method_of, HttpMethod};
use crate::text::{token_text, token_text_ignores_trailing, upper_case};

verus! {

/// The space that ends the method and the path.
pub const SP: u8 = 0x20;

/// The tab that, like a space, continues a header value on the next line.
pub const HT: u8 = 0x09;

/// The line feed that ends a line.
pub const LF: u8 = 0x0a;

/// The carriage return that may stand before the last line feed.
pub const CR: u8 = 0x0d;

/// The colon that ends a header's name.
pub const COLON: u8 = 0x3a;

/// Which part of a request the parser is reading.
pub enum Phase {
    Verb,
    Path,
    Version,
    HeaderTitle,
    HeaderContent { title: Seq<char> },
    HeadersNewLine { title: Seq<char> },
    EndHeaders,
    Complete,
}

/// A request line and its headers.
pub struct RequestView {
    pub method: HttpMethod,
    pub path: Seq<char>,
    pub headers: Map<Seq<char>, Seq<Seq<char>>>,
}

/// What has been parsed of a request so far.
pub struct BuilderView {
    pub method: Option<HttpMethod>,
    pub path: Option<Seq<char>>,
    pub version: Option<Seq<char>>,
    pub headers: Map<Seq<char>, Seq<Seq<char>>>,
    pub state: Phase,
    /// The bytes of the token that is being read: all that arrived since the
    /// last token ended, in this fragment or in earlier ones.
    pub carry: Seq<u8>,
}

/// How the parsing of a sequence of bytes ends.
pub enum Outcome {
    /// The bytes ran out before the request was complete.
    Incomplete { builder: BuilderView },
    /// The request is complete; `rest` holds the bytes that follow it.
    Finished { request: RequestView, rest: Seq<u8> },
    /// The bytes are no request.
    Failed { error: HttpError },
}

impl BuilderView {
    /// The state in which the parsing of every request starts.
    pub open spec fn fresh() -> BuilderView {
        BuilderView {
            method: None,
            path: None,
            version: None,
            headers: Map::empty(),
            state: Phase::Verb,
            carry: Seq::empty(),
        }
    }

    /// The same state with one more byte in the current token.
    pub open spec fn keep(self, byte: u8) -> BuilderView {
        BuilderView { carry: self.carry.push(byte), ..self }
    }

    /// The same state with the bytes `token` after those of the current token.
    pub open spec fn pending(self, token: Seq<u8>) -> BuilderView {
        BuilderView { carry: self.carry + token, ..self }
    }

    /// The same state at the start of the next token, in phase `state`.
    pub open spec fn enter(self, state: Phase) -> BuilderView {
        BuilderView { state, carry: Seq::empty(), ..self }
    }

    /// The state after the current token has been taken as a value of the
    /// header `title`.
    pub open spec fn with_header(self, title: Seq<char>, value: Seq<char>, state: Phase) -> BuilderView {
        BuilderView {
            headers: append_value(self.headers, title, value),
            state,
            carry: Seq::empty(),
            ..self
        }
    }

    /// The request that the parsed fields make up.
    pub open spec fn build(self) -> Result<RequestView, HttpError> {
        match (self.method, self.path) {
            (None, _) => Err(HttpError::MethodNotDeclared),
            (Some(_), None) => Err(HttpError::PathMissing),
            (Some(method), Some(path)) => Ok(RequestView { method, path, headers: self.headers }),
        }
    }
}

/// Whether a line feed ends the header section where these bytes have been
/// read of a header's name: where they are none, or one carriage return.
pub open spec fn ends_headers(carry: Seq<u8>) -> bool {
    carry.len() == 0 || carry == seq![CR]
}

/// One byte in the phase `HeaderTitle`: a line feed at the start of the line,
/// or after one carriage return there, ends the header section; a colon ends
/// a header's name; any other byte belongs to the name, and so does a line
/// feed further on in the line.
pub open spec fn step_title(b: BuilderView, byte: u8) -> Result<BuilderView, HttpError> {
    if byte == LF && ends_headers(b.carry) {
        Ok(b.enter(Phase::Complete))
    } else if byte == COLON {
        match token_text(b.carry) {
            Ok(name) => Ok(b.enter(Phase::HeaderContent { title: upper_case(name) })),
            Err(e) => Err(e),
        }
    } else {
        Ok(b.keep(byte))
    }
}

/// One byte in the phase `HeadersNewLine`, which follows the line feed after a
/// header value. A space or a tab folds the next line into the value. A line
/// feed or a carriage return ends the value and the header section. Any other
/// byte ends the value and is read again as the first byte of the next
/// header's name.
pub open spec fn step_new_line(b: BuilderView, title: Seq<char>, byte: u8) -> Result<
    BuilderView,
    HttpError,
> {
    if byte == SP || byte == HT {
        Ok(BuilderView { state: Phase::HeaderContent { title }, ..b.keep(byte) })
    } else {
        match token_text(b.carry) {
            Err(e) => Err(e),
            Ok(value) => if byte == LF {
                Ok(b.with_header(title, value, Phase::Complete))
            } else if byte == CR {
                Ok(b.with_header(title, value, Phase::EndHeaders))
            } else {
                step_title(b.with_header(title, value, Phase::HeaderTitle), byte)
            },
        }
    }
}

/// The state after one byte, or the error with which that byte ends the
/// parsing.
pub open spec fn step(b: BuilderView, byte: u8) -> Result<BuilderView, HttpError> {
    match b.state {
        Phase::Verb => if byte == SP {
            match token_text(b.carry) {
                Err(e) => Err(e),
                Ok(verb) => match method_of(verb) {
                    Err(e) => Err(e),
                    Ok(method) => Ok(BuilderView { method: Some(method), ..b.enter(Phase::Path) }),
                },
            }
        } else {
            Ok(b.keep(byte))
        },
        Phase::Path => if byte == SP {
            match token_text(b.carry) {
                Err(e) => Err(e),
                Ok(path) => Ok(BuilderView { path: Some(path), ..b.enter(Phase::Version) }),
            }
        } else {
            Ok(b.keep(byte))
        },
        Phase::Version => if byte == LF {
            match token_text(b.carry) {
                Err(e) => Err(e),
                Ok(version) => Ok(
                    BuilderView { version: Some(version), ..b.enter(Phase::HeaderTitle) },
                ),
            }
        } else {
            Ok(b.keep(byte))
        },
        Phase::HeaderTitle => step_title(b, byte),
        Phase::HeaderContent { title } => if byte == LF {
            Ok(BuilderView { state: Phase::HeadersNewLine { title }, ..b.keep(byte) })
        } else {
            Ok(b.keep(byte))
        },
        Phase::HeadersNewLine { title } => step_new_line(b, title, byte),
        Phase::EndHeaders => if byte == LF {
            Ok(b.enter(Phase::Complete))
        } else {
            Err(HttpError::MalformedHeaderSection)
        },
        Phase::Complete => Ok(b),
    }
}

/// How the parsing of `input` ends when it starts in the state `b`: the bytes
/// are taken one by one until the request is complete, a byte is refused, or
/// none is left.
pub open spec fn run(b: BuilderView, input: Seq<u8>) -> Outcome
    decreases input.len(),
{
    if input.len() == 0 {
        Outcome::Incomplete { builder: b }
    } else {
        match step(b, input[0]) {
            Err(error) => Outcome::Failed { error },
            Ok(next) => if next.state is Complete {
                match next.build() {
                    Err(error) => Outcome::Failed { error },
                    Ok(request) => Outcome::Finished { request, rest: input.skip(1) },
                }
            } else {
                run(next, input.skip(1))
            },
        }
    }
}

/// How a parsing that ended as `outcome` goes on when the bytes `more` arrive
/// after those that it was given: an unfinished one takes them up, a finished
/// one leaves them after the request, a failed one stays failed.
pub open spec fn resume(outcome: Outcome, more: Seq<u8>) -> Outcome {
    match outcome {
        Outcome::Incomplete { builder } => run(builder, more),
        Outcome::Finished { request, rest } => Outcome::Finished { request, rest: rest + more },
        Outcome::Failed { error } => Outcome::Failed { error },
    }
}

/// How the parsing ends when the input arrives in fragments, each parsed from
/// the state that the one before it left.
pub open spec fn run_fragments(b: BuilderView, fragments: Seq<Seq<u8>>) -> Outcome
    decreases fragments.len(),
{
    if fragments.len() == 0 {
        Outcome::Incomplete { builder: b }
    } else {
        resume(run_fragments(b, fragments.drop_last()), fragments.last())
    }
}

/// A request takes up at least one byte: where the parsing of `input`
/// finishes, the bytes left after the request are what follows the first `k`
/// bytes of `input`, for some `k` above zero.
pub proof fn finished_leaves_a_suffix(b: BuilderView, input: Seq<u8>) -> (k: int)
    requires
        run(b, input) is Finished,
    ensures
        0 < k <= input.len(),
        run(b, input)->rest == input.skip(k),
    decreases input.len(),
{
    match step(b, input[0]) {
        Err(_) => 1,
        Ok(next) => {
            if next.state is Complete {
                1
            } else {
                let k = finished_leaves_a_suffix(next, input.skip(1));
                k + 1
            }
        },
    }
}

/// Parsing can be resumed: to parse `first`, and then `second` from the state
/// that `first` left, ends as parsing the two in one piece does, wherever the
/// cut falls.
pub proof fn run_resumes(b: BuilderView, first: Seq<u8>, second: Seq<u8>)
    ensures
        run(b, first + second) == resume(run(b, first), second),
    decreases first.len(),
{
    let whole = first + second;
    if first.len() > 0 {
        assert(whole.skip(1) =~= first.skip(1) + second);
        match step(b, first[0]) {
            Err(_) => {},
            Ok(next) => {
                if !(next.state is Complete) {
                    run_resumes(next, first.skip(1), second);
                }
            },
        }
    }
}

/// The header section may end with a carriage return and a line feed, or with
/// a line feed alone: at the start of a line where a header's name is read,
/// and after the line feed that follows a header's value, the two complete
/// the same request and leave the same bytes after it.
pub proof fn last_line_may_have_carriage_return(b: BuilderView, rest: Seq<u8>)
    requires
        b.state is HeaderTitle && b.carry.len() == 0 || b.state is HeadersNewLine,
    ensures
        run(b, seq![CR, LF] + rest) == run(b, seq![LF] + rest),
{
    let with_cr = seq![CR, LF] + rest;
    let without = seq![LF] + rest;
    assert(with_cr.skip(1).skip(1) =~= rest);
    assert(without.skip(1) =~= rest);
    assert(b.carry.len() == 0 ==> b.carry.push(CR) =~= seq![CR]);
    reveal_with_fuel(run, 2);
}

/// The request line and a header line may end with a carriage return and a
/// line feed, or with a line feed alone: the two lead to the same end, with
/// the same version or the same value of the header, since the carriage
/// return is trimmed away. This holds of the request line, and of a header
/// line after which no space or tab continues the value; before such a
/// continuation the carriage return lies inside the value, and stays.
pub proof fn line_may_end_with_carriage_return(b: BuilderView, rest: Seq<u8>)
    requires
        b.state is Version || (b.state is HeaderContent && rest.len() > 0 && rest[0] != SP
            && rest[0] != HT),
    ensures
        run(b, seq![CR, LF] + rest) == run(b, seq![LF] + rest),
{
    let with_cr = seq![CR, LF] + rest;
    let without = seq![LF] + rest;
    assert(with_cr.skip(1).skip(1) =~= rest);
    assert(without.skip(1) =~= rest);
    token_text_ignores_trailing(b.carry, CR);
    token_text_ignores_trailing(b.carry.push(CR), LF);
    token_text_ignores_trailing(b.carry, LF);
    reveal_with_fuel(run, 3);
}

/// However a sequence of bytes is cut into consecutive fragments, parsing the
/// fragments one after the other, each from the state that the one before it
/// left, ends as parsing the whole sequence at once does.
pub proof fn fragments_parse_as_whole(b: BuilderView, fragments: Seq<Seq<u8>>)
    ensures
        run_fragments(b, fragments) == run(b, fragments.flatten()),
    decreases fragments.len(),
{
    if fragments.len() > 0 {
        let front = fragments.drop_last();
        fragments_parse_as_whole(b, front);
        assert(fragments =~= front.push(fragments.last()));
        front.lemma_flatten_push(fragments.last());
        run_resumes(b, front.flatten(), fragments.last());
    }
}

} // verus!
