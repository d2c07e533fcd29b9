//! One accepted connection, without its socket: the buffer that the reads
//! fill, the request that is being parsed, and what to do after each read.
//! The caller owns the socket, performs the reads and carries out the actions.

use bytes::{ByteBuf, MutByteBuf};
use vstd::prelude::*;

use crate::buffer::{in_order, unread, written};
use crate::error::HttpError;
use crate::machine::{finished_leaves_a_suffix, run, BuilderView, Outcome, RequestView};
use crate::method::HttpMethod;
use crate::request::{HttpRequest, HttpRequestBuilder, HttpResult};

verus! {

/// The number of bytes that a new connection's buffer is asked to hold.
pub const BUFFER_CAPACITY: usize = 16384;

/// The identifier under which the listening socket is registered. Every other
/// identifier names the slot of a connection.
pub const SERVER: usize = 0;

/// What one non-blocking read on the socket reported.
#[derive(Debug, Clone, Copy, PartialEq, Eq, Structural)]
pub enum ReadOutcome {
    /// Nothing was there to read: the notification was spurious, or the data
    /// had been read already.
    WouldBlock,
    /// The read put the bytes that were there into the buffer.
    Ready,
    /// The socket failed.
    Failed,
}

/// Why a connection is to be closed.
#[derive(Debug, Clone, Copy, PartialEq, Eq, Structural)]
pub enum CloseReason {
    /// What the peer sent is no request.
    Protocol(HttpError),
    /// The socket failed.
    Io,
}

/// What the caller is to do with a connection after an event.
#[derive(Debug)]
pub enum Action {
    /// Ask again to be told when the socket is readable.
    Rearm,
    /// Hand the request to the responder; the connection then goes on with
    /// `resume`.
    Deliver(HttpRequest),
    /// Hand the connection over to HTTP/2, with the request that asked for it.
    Upgrade(HttpRequest),
    /// Close this connection and give its slot back.
    Close(CloseReason),
}

/// An [`Action`] with the request as its mathematical value.
pub enum ActionView {
    Rearm,
    Deliver(RequestView),
    Upgrade(RequestView),
    Close(CloseReason),
}

impl View for Action {
    type V = ActionView;

    open spec fn view(&self) -> ActionView {
        match self {
            Action::Rearm => ActionView::Rearm,
            Action::Deliver(request) => ActionView::Deliver(request@),
            Action::Upgrade(request) => ActionView::Upgrade(request@),
            Action::Close(reason) => ActionView::Close(*reason),
        }
    }
}

/// The one buffer of a connection, in one of its two modes, or lent out for a
/// read.
pub enum BufferSlot {
    Absent,
    Write(MutByteBuf),
    Read(ByteBuf),
}

/// A [`BufferSlot`] by the bytes that it holds: those written so far in write
/// mode, those yet unread in read mode.
pub enum BufferView {
    Absent,
    Write(Seq<u8>),
    Read(Seq<u8>),
}

impl View for BufferSlot {
    type V = BufferView;

    open spec fn view(&self) -> BufferView {
        match self {
            BufferSlot::Absent => BufferView::Absent,
            BufferSlot::Write(buffer) => BufferView::Write(written(*buffer)),
            BufferSlot::Read(buffer) => BufferView::Read(unread(*buffer)),
        }
    }
}

/// The state of a connection.
pub struct ConnectionView {
    pub buffer: BufferView,
    pub token: Option<usize>,
    pub builder: Option<BuilderView>,
}

/// The state in which a builder starts on `input` where the connection holds
/// `builder`: that builder, or a new one if there is none.
pub open spec fn starting(builder: Option<BuilderView>) -> BuilderView {
    match builder {
        Some(b) => b,
        None => BuilderView::fresh(),
    }
}

/// The connection after its parser has been given `input`, and what is to be
/// done then.
/// - The request is not complete: the connection keeps the builder and an
///   empty buffer in write mode, and waits for more.
/// - A request is complete: it is to be delivered. The connection keeps the
///   bytes that follow it and starts on them with a new builder.
/// - The request asks for HTTP/2: the connection keeps the bytes that follow
///   it, and no builder.
/// - The bytes are no request: the connection is to be closed.
pub open spec fn drained(c: ConnectionView, input: Seq<u8>) -> (ConnectionView, ActionView) {
    match run(starting(c.builder), input) {
        Outcome::Incomplete { builder } => (
            ConnectionView {
                buffer: BufferView::Write(Seq::empty()),
                builder: Some(builder),
                ..c
            },
            ActionView::Rearm,
        ),
        Outcome::Finished { request, rest } => if request.method == HttpMethod::HTTP2 {
            (
                ConnectionView { buffer: BufferView::Read(rest), builder: None, ..c },
                ActionView::Upgrade(request),
            )
        } else {
            (
                ConnectionView {
                    buffer: BufferView::Read(rest),
                    builder: Some(BuilderView::fresh()),
                    ..c
                },
                ActionView::Deliver(request),
            )
        },
        Outcome::Failed { error } => (
            ConnectionView { buffer: BufferView::Absent, builder: None, ..c },
            ActionView::Close(CloseReason::Protocol(error)),
        ),
    }
}

/// The connection after its buffer has been taken for a read, and the bytes
/// of the buffer taken. Only a buffer in write mode can be taken.
pub open spec fn after_take(c: ConnectionView) -> (ConnectionView, Option<Seq<u8>>) {
    match c.buffer {
        BufferView::Write(bytes) => (ConnectionView { buffer: BufferView::Absent, ..c }, Some(bytes)),
        _ => (c, None),
    }
}

/// The connection after a read that reported `outcome` and left `filled` in
/// the buffer, and what is to be done then.
pub open spec fn after_read(c: ConnectionView, filled: Seq<u8>, outcome: ReadOutcome) -> (
    ConnectionView,
    ActionView,
) {
    match outcome {
        ReadOutcome::WouldBlock => (
            ConnectionView { buffer: BufferView::Write(filled), ..c },
            ActionView::Rearm,
        ),
        ReadOutcome::Ready => drained(c, filled),
        ReadOutcome::Failed => (
            ConnectionView { buffer: BufferView::Absent, builder: None, ..c },
            ActionView::Close(CloseReason::Io),
        ),
    }
}

/// The connection after it has gone on with the bytes that it kept, and what
/// is to be done then. A connection that kept none waits for the next read.
pub open spec fn after_resume(c: ConnectionView) -> (ConnectionView, ActionView) {
    match c.buffer {
        BufferView::Read(bytes) => drained(c, bytes),
        _ => (c, ActionView::Rearm),
    }
}

/// One accepted connection: its buffer, the identifier of its slot, and the
/// builder of the request that is being parsed.
pub struct HttpConnection {
    buffer: BufferSlot,
    token: Option<usize>,
    http_request: Option<HttpRequestBuilder>,
}

/// The state of a builder that may be absent.
pub open spec fn builder_view(builder: Option<HttpRequestBuilder>) -> Option<BuilderView> {
    match builder {
        Some(b) => Some(b@),
        None => None,
    }
}

impl View for HttpConnection {
    type V = ConnectionView;

    closed spec fn view(&self) -> ConnectionView {
        ConnectionView {
            buffer: self.buffer@,
            token: self.token,
            builder: builder_view(self.http_request),
        }
    }
}

impl HttpConnection {
    /// A buffer that the connection keeps in read mode is in order.
    #[verifier::type_invariant]
    spec fn keeps_buffer_in_order(&self) -> bool {
        self.buffer matches BufferSlot::Read(buffer) ==> in_order(buffer)
    }

    /// A connection that has read nothing yet: an empty buffer in write mode,
    /// no slot, and a builder at the start of a request.
    pub fn new() -> (r: HttpConnection)
        ensures
            r@ == (ConnectionView {
                buffer: BufferView::Write(Seq::empty()),
                token: None,
                builder: Some(BuilderView::fresh()),
            }),
    {
        HttpConnection {
            buffer: BufferSlot::Write(ByteBuf::mut_with_capacity(BUFFER_CAPACITY)),
            token: None,
            http_request: Some(HttpRequestBuilder::new()),
        }
    }

    /// Records the identifier of the slot that the connection was given.
    pub fn assign(&mut self, token: usize)
        ensures
            final(self)@ == (ConnectionView { token: Some(token), ..old(self)@ }),
    {
        proof {
            use_type_invariant(&*self);
        }
        self.token = Some(token);
    }

    /// The identifier of the connection's slot, once it has one.
    pub fn token(&self) -> (r: Option<usize>)
        ensures
            r == self@.token,
    {
        self.token
    }

    /// Hands out the buffer for the next read, if it is in write mode.
    pub fn take_buffer(&mut self) -> (r: Option<MutByteBuf>)
        ensures
            final(self)@ == after_take(old(self)@).0,
            match after_take(old(self)@).1 {
                Some(bytes) => r matches Some(buffer) && written(buffer) == bytes,
                None => r is None,
            },
    {
        proof {
            use_type_invariant(&*self);
        }
        let mut slot = BufferSlot::Absent;
        std::mem::swap(&mut self.buffer, &mut slot);
        match slot {
            BufferSlot::Write(buffer) => Some(buffer),
            other => {
                self.buffer = other;
                None
            },
        }
    }

    /// Gives the parser the unread bytes of `buffer`, and keeps what the
    /// parser hands back.
    fn drain(&mut self, buffer: ByteBuf) -> (action: Action)
        requires
            in_order(buffer),
        ensures
            (final(self)@, action@) == drained(old(self)@, unread(buffer)),
    {
        proof {
            use_type_invariant(&*self);
        }
        let mut pending: Option<HttpRequestBuilder> = None;
        std::mem::swap(&mut self.http_request, &mut pending);
        let builder = match pending {
            Some(builder) => builder,
            None => HttpRequestBuilder::new(),
        };
        match builder.parse(buffer) {
            Ok(HttpResult::Http1Incomplete { buffer, request_builder }) => {
                self.buffer = BufferSlot::Write(buffer);
                self.http_request = Some(request_builder);
                Action::Rearm
            },
            Ok(HttpResult::Http1Request { buffer, request }) => {
                self.buffer = BufferSlot::Read(buffer);
                self.http_request = Some(HttpRequestBuilder::new());
                Action::Deliver(request)
            },
            Ok(HttpResult::Http2Upgrade { buffer, request }) => {
                self.buffer = BufferSlot::Read(buffer);
                self.http_request = None;
                Action::Upgrade(request)
            },
            Err(error) => {
                self.buffer = BufferSlot::Absent;
                self.http_request = None;
                Action::Close(CloseReason::Protocol(error))
            },
        }
    }

    /// Takes back the buffer after a read on the socket, and decides what is
    /// to be done.
    /// - The read would have blocked: nothing changes, and the connection
    ///   waits for the next notification.
    /// - The read put bytes into the buffer: they are parsed.
    /// - The socket failed: the connection is to be closed.
    pub fn readable(&mut self, buffer: MutByteBuf, outcome: ReadOutcome) -> (action: Action)
        ensures
            (final(self)@, action@) == after_read(old(self)@, written(buffer), outcome),
    {
        match outcome {
            ReadOutcome::WouldBlock => {
                self.buffer = BufferSlot::Write(buffer);
                Action::Rearm
            },
            ReadOutcome::Ready => self.drain(buffer.flip()),
            ReadOutcome::Failed => {
                self.buffer = BufferSlot::Absent;
                self.http_request = None;
                Action::Close(CloseReason::Io)
            },
        }
    }

    /// Goes on with the bytes that followed a delivered request.
    pub fn resume(&mut self) -> (action: Action)
        ensures
            (final(self)@, action@) == after_resume(old(self)@),
    {
        proof {
            use_type_invariant(&*self);
        }
        let mut slot = BufferSlot::Absent;
        std::mem::swap(&mut self.buffer, &mut slot);
        match slot {
            BufferSlot::Read(buffer) => self.drain(buffer),
            other => {
                self.buffer = other;
                Action::Rearm
            },
        }
    }
}

/// What a read on the socket reported, from what it returned: nothing where
/// it would have blocked, else the number of bytes read. A read of no byte
/// that would not have blocked means that the peer has closed its side, and
/// the socket can give no more: it counts as failed.
pub fn read_outcome(read: Option<usize>) -> (r: ReadOutcome)
    ensures
        r == match read {
            None => ReadOutcome::WouldBlock,
            Some(count) => if count == 0 {
                ReadOutcome::Failed
            } else {
                ReadOutcome::Ready
            },
        },
{
    match read {
        None => ReadOutcome::WouldBlock,
        Some(count) => if count == 0 {
            ReadOutcome::Failed
        } else {
            ReadOutcome::Ready
        },
    }
}

/// What an identifier stands for.
#[derive(Debug, Clone, Copy, PartialEq, Eq, Structural)]
pub enum ConnectionId {
    /// The listening socket.
    Listener,
    /// The connection in the slot of this number.
    Slot(usize),
}

/// What the reactor is to do for an event.
#[derive(Debug, Clone, Copy, PartialEq, Eq, Structural)]
pub enum Dispatch {
    /// The event is not a readable one: nothing is to be done.
    Ignore,
    /// A peer waits at the listening socket: accept it.
    Accept,
    /// The connection in this slot can be read.
    Readable(usize),
}

/// What the identifier `token` stands for.
pub fn identify(token: usize) -> (r: ConnectionId)
    ensures
        r == if token == SERVER {
            ConnectionId::Listener
        } else {
            ConnectionId::Slot(token)
        },
{
    if token == SERVER {
        ConnectionId::Listener
    } else {
        ConnectionId::Slot(token)
    }
}

/// Where an event goes: a readable one on the listening socket to the
/// accepting of a connection, a readable one on any other identifier to the
/// connection in that slot, and any other event nowhere.
pub fn dispatch(token: usize, readable: bool) -> (r: Dispatch)
    ensures
        r == if !readable {
            Dispatch::Ignore
        } else if token == SERVER {
            Dispatch::Accept
        } else {
            Dispatch::Readable(token)
        },
{
    if !readable {
        Dispatch::Ignore
    } else {
        match identify(token) {
            ConnectionId::Listener => Dispatch::Accept,
            ConnectionId::Slot(slot) => Dispatch::Readable(slot),
        }
    }
}

/// A notification that finds nothing to read changes nothing: when the
/// buffer of a connection is taken for a read and the read would have
/// blocked, the connection is afterwards as it was before, and it is not
/// closed but waits for the next notification.
pub proof fn spurious_read_changes_nothing(c: ConnectionView, bytes: Seq<u8>)
    requires
        c.buffer == BufferView::Write(bytes),
    ensures
        after_take(c) == (ConnectionView { buffer: BufferView::Absent, ..c }, Some(bytes)),
        after_read(after_take(c).0, bytes, ReadOutcome::WouldBlock) == (c, ActionView::Rearm),
{
}

/// A completed request leaves no trace: whenever a request is delivered, the
/// connection goes on with a builder in which no field is set, so what the
/// bytes after the request parse to is what they parse to on a new
/// connection.
pub proof fn delivered_request_leaves_no_trace(c: ConnectionView, input: Seq<u8>)
    requires
        drained(c, input).1 is Deliver,
    ensures
        drained(c, input).0.builder == Some(BuilderView::fresh()),
        drained(c, input).0.buffer is Read,
        after_resume(drained(c, input).0).1 == drained(
            ConnectionView { builder: None, ..c },
            drained(c, input).0.buffer->Read_0,
        ).1,
{
}

/// What is no request closes the connection and nothing else: whenever the
/// parser refuses the bytes that a connection was given, the connection is to
/// be closed for that error, and it keeps neither buffer nor builder.
pub proof fn refused_bytes_close_the_connection(c: ConnectionView, input: Seq<u8>)
    requires
        run(starting(c.builder), input) is Failed,
    ensures
        drained(c, input) == (
            ConnectionView { buffer: BufferView::Absent, builder: None, ..c },
            ActionView::Close(CloseReason::Protocol(run(starting(c.builder), input)->error)),
        ),
{
}

/// Delivering makes progress: the bytes that a connection keeps after a
/// delivered request are fewer than those that its parser was given, so a
/// connection that goes on after each delivery comes to wait for the next
/// read after finitely many requests.
pub proof fn delivery_makes_progress(c: ConnectionView, input: Seq<u8>)
    requires
        drained(c, input).1 is Deliver,
    ensures
        drained(c, input).0.buffer matches BufferView::Read(rest) && rest.len() < input.len(),
{
    let _ = finished_leaves_a_suffix(starting(c.builder), input);
}

} // verus!
