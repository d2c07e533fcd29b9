//! The table of connections: a slab of slots, each with an identifier, in
//! which a connection stands from the moment it is accepted until it is
//! closed.

use bytes::MutByteBuf;
use slab::Slab;
use vstd::prelude::*;

use crate::buffer::written;
use crate::connection::{
    after_read, after_resume, after_take, Action, BufferView, ConnectionView, HttpConnection,
    ReadOutcome, SERVER,
};
use crate::machine::BuilderView;

verus! {

/// A slab of connections, of the `slab` crate, with identifiers that are plain
/// numbers. The verifier does not look inside: all that is known of a slab is
/// what the two names below say of it.
#[verifier::external_body]
pub struct Slots {
    slab: Slab<HttpConnection, usize>,
}

/// The connections that a slab holds, each under the identifier of the slot
/// in which it stands.
pub uninterp spec fn slab_items(slab: Slots) -> Map<usize, HttpConnection>;

/// The identifiers of all the slots of a slab, filled or not.
pub uninterp spec fn slab_slots(slab: Slots) -> Set<usize>;

/// `Slab::new_starting_at` makes a slab of `slots` empty slots, the first of
/// which has the identifier `first`, the others the numbers that follow.
#[verifier::external_body]
fn slab_new(first: usize, slots: usize) -> (r: Slots)
    requires
        first + slots < usize::MAX,
    ensures
        slab_items(r) == (Map::<usize, HttpConnection>::empty()),
        slab_slots(r) == Set::new(|t: usize| first <= t < first + slots),
{
    Slots { slab: Slab::new_starting_at(first, slots) }
}

/// `Slab::insert` puts a value into a slot that was empty and returns the
/// slot's identifier. It hands the value back where no slot is empty.
#[verifier::external_body]
fn slab_insert(slab: &mut Slots, connection: HttpConnection) -> (r: Result<
    usize,
    HttpConnection,
>)
    ensures
        slab_slots(*final(slab)) == slab_slots(*old(slab)),
        r is Err <==> slab_slots(*old(slab)).subset_of(slab_items(*old(slab)).dom()),
        match r {
            Ok(token) => slab_slots(*old(slab)).contains(token) && !slab_items(
                *old(slab),
            ).contains_key(token) && slab_items(*final(slab)) == slab_items(*old(slab)).insert(
                token,
                connection,
            ),
            Err(back) => back == connection && slab_items(*final(slab)) == slab_items(*old(slab)),
        },
{
    slab.slab.insert(connection)
}

/// `Slab::get` returns the value in a slot, if the slot is filled.
#[verifier::external_body]
fn slab_get(slab: &Slots, token: usize) -> (r: Option<&HttpConnection>)
    requires
        slab_slots(*slab).contains(token),
    ensures
        match r {
            Some(connection) => slab_items(*slab).contains_key(token) && *connection == slab_items(
                *slab,
            )[token],
            None => !slab_items(*slab).contains_key(token),
        },
{
    slab.slab.get(token)
}

/// `Slab::get_mut` lends the value in a slot, if the slot is filled: what the
/// borrower leaves is what the slot then holds.
#[verifier::external_body]
fn slab_get_mut(slab: &mut Slots, token: usize) -> (r: Option<
    &mut HttpConnection,
>)
    requires
        slab_slots(*old(slab)).contains(token),
    ensures
        slab_slots(*final(slab)) == slab_slots(*old(slab)),
        match r {
            Some(connection) => slab_items(*old(slab)).contains_key(token) && *connection
                == slab_items(*old(slab))[token] && slab_items(*final(slab)) == slab_items(
                *old(slab),
            ).insert(token, *final(connection)),
            None => !slab_items(*old(slab)).contains_key(token) && slab_items(*final(slab))
                == slab_items(*old(slab)),
        },
{
    slab.slab.get_mut(token)
}

/// `Slab::remove` empties a filled slot and returns what it held. On a slot
/// that is empty already the call would damage the list of empty slots, so the
/// contract leaves such a slot out.
#[verifier::external_body]
fn slab_remove(slab: &mut Slots, token: usize) -> (r: Option<HttpConnection>)
    requires
        slab_slots(*old(slab)).contains(token),
        slab_items(*old(slab)).contains_key(token),
    ensures
        slab_slots(*final(slab)) == slab_slots(*old(slab)),
        r == Some(slab_items(*old(slab))[token]),
        slab_items(*final(slab)) == slab_items(*old(slab)).remove(token),
{
    slab.slab.remove(token)
}

/// The identifier of the table's first slot. It follows that of the listening
/// socket.
pub const FIRST_SLOT: usize = 1;

/// The number of connections that the table has room for.
pub const SLOTS: usize = 128;

/// Whether `token` is the identifier of one of the table's slots.
pub open spec fn is_slot(token: usize) -> bool {
    FIRST_SLOT <= token < FIRST_SLOT + SLOTS
}

/// The state of a connection that has just been accepted into the slot
/// `token`.
pub open spec fn accepted(token: usize) -> ConnectionView {
    ConnectionView {
        buffer: BufferView::Write(Seq::empty()),
        token: Some(token),
        builder: Some(BuilderView::fresh()),
    }
}

/// The connections of a server, each in a slot of its own.
pub struct ConnectionTable {
    conns: Slots,
}

impl View for ConnectionTable {
    type V = Map<usize, ConnectionView>;

    closed spec fn view(&self) -> Map<usize, ConnectionView> {
        Map::new(
            |t: usize| slab_items(self.conns).contains_key(t),
            |t: usize| slab_items(self.conns)[t]@,
        )
    }
}

impl ConnectionTable {
    /// Whether the table is in order: its connections stand in its slots, and
    /// each knows the identifier of its own.
    pub closed spec fn wf(&self) -> bool {
        &&& slab_slots(self.conns) == Set::new(|t: usize| is_slot(t))
        &&& forall|t: usize| #[trigger]
            slab_items(self.conns).contains_key(t) ==> is_slot(t) && slab_items(
                self.conns,
            )[t]@.token == Some(t)
    }

    /// In a table that is in order, every connection stands in a slot, under
    /// an identifier other than the listening socket's, and knows it.
    pub proof fn connections_stand_in_slots(&self)
        requires
            self.wf(),
        ensures
            forall|t: usize| #[trigger]
                self@.contains_key(t) ==> is_slot(t) && t != SERVER && self@[t].token == Some(t),
    {
    }

    /// A table without connections.
    pub fn new() -> (r: ConnectionTable)
        ensures
            r.wf(),
            r@ == (Map::<usize, ConnectionView>::empty()),
    {
        let r = ConnectionTable { conns: slab_new(FIRST_SLOT, SLOTS) };
        assert(slab_slots(r.conns) =~= Set::new(|t: usize| is_slot(t)));
        r
    }

    /// Takes a new connection into an empty slot, tells the connection the
    /// slot's identifier, and returns it. Returns `None`, and changes nothing,
    /// where every slot is taken.
    pub fn accept(&mut self) -> (r: Option<usize>)
        requires
            old(self).wf(),
        ensures
            final(self).wf(),
            r is Some <==> exists|t: usize| is_slot(t) && !old(self)@.contains_key(t),
            match r {
                Some(token) => is_slot(token) && !old(self)@.contains_key(token) && final(self)@
                    == old(self)@.insert(token, accepted(token)),
                None => final(self)@ == old(self)@,
            },
    {
        match slab_insert(&mut self.conns, HttpConnection::new()) {
            Ok(token) => {
                match slab_get_mut(&mut self.conns, token) {
                    Some(connection) => connection.assign(token),
                    None => {},
                }
                Some(token)
            },
            Err(_) => None,
        }
    }

    /// The connection in the slot `token`, if there is one.
    pub fn conn(&self, token: usize) -> (r: Option<&HttpConnection>)
        requires
            self.wf(),
        ensures
            match r {
                Some(connection) => self@.contains_key(token) && connection@ == self@[token],
                None => !self@.contains_key(token),
            },
    {
        if FIRST_SLOT <= token && token - FIRST_SLOT < SLOTS {
            slab_get(&self.conns, token)
        } else {
            None
        }
    }

    /// Hands out the buffer of the connection in the slot `token` for the next
    /// read, if there is such a connection and its buffer is in write mode.
    pub fn take_buffer(&mut self, token: usize) -> (r: Option<MutByteBuf>)
        requires
            old(self).wf(),
        ensures
            final(self).wf(),
            if old(self)@.contains_key(token) {
                &&& final(self)@ == old(self)@.insert(token, after_take(old(self)@[token]).0)
                &&& match after_take(old(self)@[token]).1 {
                    Some(bytes) => r matches Some(buffer) && written(buffer) == bytes,
                    None => r is None,
                }
            } else {
                final(self)@ == old(self)@ && r is None
            },
    {
        if FIRST_SLOT <= token && token - FIRST_SLOT < SLOTS {
            match slab_get_mut(&mut self.conns, token) {
                Some(connection) => connection.take_buffer(),
                None => None,
            }
        } else {
            None
        }
    }

    /// Gives the connection in the slot `token` its buffer back after a read,
    /// and returns what is to be done. Returns `None`, and changes nothing,
    /// where the slot holds no connection.
    pub fn conn_readable(&mut self, token: usize, buffer: MutByteBuf, outcome: ReadOutcome) -> (r:
        Option<Action>)
        requires
            old(self).wf(),
        ensures
            final(self).wf(),
            if old(self)@.contains_key(token) {
                r matches Some(action) && (final(self)@, action@) == (
                    old(self)@.insert(
                        token,
                        after_read(old(self)@[token], written(buffer), outcome).0,
                    ),
                    after_read(old(self)@[token], written(buffer), outcome).1,
                )
            } else {
                final(self)@ == old(self)@ && r is None
            },
    {
        if FIRST_SLOT <= token && token - FIRST_SLOT < SLOTS {
            match slab_get_mut(&mut self.conns, token) {
                Some(connection) => Some(connection.readable(buffer, outcome)),
                None => None,
            }
        } else {
            None
        }
    }

    /// Lets the connection in the slot `token` go on with the bytes that it
    /// kept, and returns what is to be done. Returns `None`, and changes
    /// nothing, where the slot holds no connection.
    pub fn resume(&mut self, token: usize) -> (r: Option<Action>)
        requires
            old(self).wf(),
        ensures
            final(self).wf(),
            if old(self)@.contains_key(token) {
                r matches Some(action) && (final(self)@, action@) == (
                    old(self)@.insert(token, after_resume(old(self)@[token]).0),
                    after_resume(old(self)@[token]).1,
                )
            } else {
                final(self)@ == old(self)@ && r is None
            },
    {
        if FIRST_SLOT <= token && token - FIRST_SLOT < SLOTS {
            match slab_get_mut(&mut self.conns, token) {
                Some(connection) => Some(connection.resume()),
                None => None,
            }
        } else {
            None
        }
    }

    /// Closes the connection in the slot `token` and frees the slot. Returns
    /// whether there was a connection.
    pub fn close(&mut self, token: usize) -> (r: bool)
        requires
            old(self).wf(),
        ensures
            final(self).wf(),
            r == old(self)@.contains_key(token),
            final(self)@ == old(self)@.remove(token),
    {
        let present = match self.conn(token) {
            Some(_) => true,
            None => false,
        };
        if present {
            let _ = slab_remove(&mut self.conns, token);
        }
        present
    }
}

} // verus!
