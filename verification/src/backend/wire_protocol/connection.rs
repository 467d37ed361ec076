//! The bookkeeping of a kernel connection: which requests await a reply,
//! where an incoming message goes, and what closing does.
//!
//! A connection is used from several tasks at once. This module holds what
//! they decide, as operations on one value that its owner hands out under a
//! lock: the table of pending requests and the queue of broadcast messages.
//! The tasks themselves, the queues of outgoing messages and all waiting are
//! the caller's.

use std::collections::VecDeque;

use dashmap::DashMap;
use vstd::prelude::*;
use vstd::string::*;

use super::KernelMessage;
use crate::text::str_eq;
use crate::Error;

verus! {

/// `DashMap` of the dashmap crate. What a map holds is stated through
/// [`table_entries`].
#[verifier::external_type_specification]
#[verifier::external_body]
#[verifier::reject_recursive_types(K)]
#[verifier::reject_recursive_types(V)]
#[verifier::reject_recursive_types(S)]
pub struct ExDashMap<K, V, S>(DashMap<K, V, S>);

/// What a reply table holds: for each message identifier that awaits a
/// reply, the ticket of the waiter.
pub uninterp spec fn table_entries(table: DashMap<String, u64>) -> Map<Seq<char>, u64>;

/// The table in which no request awaits a reply.
pub open spec fn nothing_pending() -> Map<Seq<char>, u64> {
    Map::empty()
}

/// `DashMap::new` of the dashmap crate: a map that holds nothing.
#[verifier::external_body]
fn table_new() -> (table: DashMap<String, u64>)
    ensures
        table_entries(table) == nothing_pending(),
{
    DashMap::new()
}

/// `DashMap::insert` of the dashmap crate: the key holds the new value
/// afterwards, the other keys are untouched, and the value that the key held
/// before comes back.
#[verifier::external_body]
fn table_insert(table: &mut DashMap<String, u64>, key: String, ticket: u64) -> (displaced: Option<
    u64,
>)
    ensures
        table_entries(*final(table)) == table_entries(*old(table)).insert(key@, ticket),
        displaced == if table_entries(*old(table)).contains_key(key@) {
            Some(table_entries(*old(table))[key@])
        } else {
            None
        },
{
    table.insert(key, ticket)
}

/// `DashMap::remove` of the dashmap crate: the key holds nothing afterwards,
/// the other keys are untouched, and the value that the key held comes back.
#[verifier::external_body]
fn table_remove(table: &mut DashMap<String, u64>, key: &str) -> (removed: Option<u64>)
    ensures
        table_entries(*final(table)) == table_entries(*old(table)).remove(key@),
        removed == if table_entries(*old(table)).contains_key(key@) {
            Some(table_entries(*old(table))[key@])
        } else {
            None
        },
{
    table.remove(key).map(|entry| entry.1)
}

/// `DashMap::clear` of the dashmap crate: the map holds nothing afterwards.
#[verifier::external_body]
fn table_clear(table: &mut DashMap<String, u64>)
    ensures
        table_entries(*final(table)) == nothing_pending(),
{
    table.clear()
}

/// How many messages the send queue of the shell channel holds.
pub const SHELL_QUEUE_CAPACITY: usize = 8;

/// How many messages the send queue of the control channel holds.
pub const CONTROL_QUEUE_CAPACITY: usize = 8;

/// How many messages the receive queue of the iopub channel holds.
pub const IOPUB_QUEUE_CAPACITY: usize = 64;

/// The handle of a request that awaits its reply.
///
/// Its owner hands it back with [`KernelConnection::abandon`] when it stops
/// waiting, so that the connection forgets the request.
#[derive(Debug)]
pub struct PendingRequest {
    msg_id: String,
    waiter: u64,
}

impl PendingRequest {
    /// The identifier of the request.
    pub closed spec fn id(self) -> Seq<char> {
        self.msg_id@
    }

    /// The ticket of the waiter.
    pub closed spec fn ticket(self) -> u64 {
        self.waiter
    }

    /// The identifier of the request.
    pub fn msg_id(&self) -> (id: &str)
        ensures
            id@ == self.id(),
    {
        self.msg_id.as_str()
    }

    /// The ticket of the waiter.
    pub fn waiter(&self) -> (ticket: u64)
        ensures
            ticket == self.ticket(),
    {
        self.waiter
    }
}

/// Where an incoming message goes.
#[derive(Clone, Copy, Debug, PartialEq, Eq, Structural)]
pub enum Delivery {
    /// To the waiter with this ticket, and to nobody else.
    Reply(u64),
    /// To the queue of broadcast messages.
    Broadcast,
    /// Nowhere: no request awaits it, or its channel is not served.
    Discarded,
    /// Nowhere: its channel is not one of the protocol.
    UnknownChannel,
}

/// What is to be done with a message that arrived.
#[derive(Clone, Debug, PartialEq, Eq)]
pub enum Inbound {
    /// Hand the message to the waiter with this ticket.
    Reply(u64, KernelMessage),
    /// Wake a reader: the message is in the queue of broadcast messages. The
    /// message that left the queue to make room, if any, comes along.
    Queued(Option<KernelMessage>),
    /// Nothing: nobody awaits the message, or the connection is closed.
    Discarded,
    /// Nothing but a warning: the channel of the message is not one of the
    /// protocol.
    UnknownChannel,
}

/// The state of a connection that its tasks share.
///
/// It holds the requests that await a reply and the queue of broadcast
/// messages that were received and not yet read. Each request is noted under
/// a ticket of its own, by which its waiter is found again: tickets are
/// handed out in rising order, so no two requests ever share one. The queue
/// never holds more than [`IOPUB_QUEUE_CAPACITY`] messages, and a closed
/// connection holds nothing.
pub struct KernelConnection {
    replies: DashMap<String, u64>,
    next_waiter: u64,
    iopub: VecDeque<KernelMessage>,
    closed: bool,
}

impl KernelConnection {
    /// What holds of every connection: the queue is within its capacity, a
    /// closed connection has nothing queued and nothing pending, and the
    /// waiters of the pending requests are apart.
    pub closed spec fn wf(self) -> bool {
        &&& self.iopub@.len() <= IOPUB_QUEUE_CAPACITY
        &&& self.closed ==> self.iopub@.len() == 0
        &&& self.closed ==> table_entries(self.replies) == nothing_pending()
        &&& self.waiters_are_apart()
    }

    /// The ticket that the next request is noted under.
    pub closed spec fn next_ticket(self) -> u64 {
        self.next_waiter
    }

    /// The tickets of the pending requests were all handed out before, and
    /// no two pending requests share a ticket.
    pub open spec fn waiters_are_apart(self) -> bool {
        &&& forall|id: Seq<char>| #[trigger]
            self.pending().contains_key(id) ==> self.pending()[id] < self.next_ticket()
        &&& forall|a: Seq<char>, b: Seq<char>|
            a != b && #[trigger] self.pending().contains_key(a) && #[trigger] self.pending().contains_key(
                b,
            ) ==> self.pending()[a] != self.pending()[b]
    }

    /// Waiters stay apart where requests only leave and tickets only rise.
    proof fn lemma_apart_kept(before: Self, after: Self)
        requires
            before.waiters_are_apart(),
            before.next_ticket() <= after.next_ticket(),
            forall|id: Seq<char>| #[trigger]
                after.pending().contains_key(id) ==> before.pending().contains_key(id)
                    && after.pending()[id] == before.pending()[id],
        ensures
            after.waiters_are_apart(),
    {
        assert forall|a: Seq<char>, b: Seq<char>|
            a != b && #[trigger] after.pending().contains_key(a) && #[trigger] after.pending().contains_key(
                b,
            ) implies after.pending()[a] != after.pending()[b] by {
            assert(before.pending().contains_key(a) && before.pending().contains_key(b));
        }
    }

    /// Whether the connection takes calls: it is open, and there is a ticket
    /// left to hand out.
    pub open spec fn takes_calls(self) -> bool {
        !self.is_closed() && self.next_ticket() < u64::MAX
    }

    /// The requests that await a reply: for each identifier, the ticket of
    /// its waiter.
    pub closed spec fn pending(self) -> Map<Seq<char>, u64> {
        table_entries(self.replies)
    }

    /// The broadcast messages that were received and not yet read, oldest
    /// first.
    pub closed spec fn queued(self) -> Seq<KernelMessage> {
        self.iopub@
    }

    /// Whether the connection has been closed.
    pub closed spec fn is_closed(self) -> bool {
        self.closed
    }

    /// Where a reply to the request `parent` goes, and nowhere without one.
    pub open spec fn reply_target(self, parent: Option<Seq<char>>) -> Delivery {
        match parent {
            Some(id) => if self.pending().contains_key(id) {
                Delivery::Reply(self.pending()[id])
            } else {
                Delivery::Discarded
            },
            None => Delivery::Discarded,
        }
    }

    /// What is pending after a reply to the request `parent` was routed.
    pub open spec fn after_reply(self, parent: Option<Seq<char>>) -> Map<Seq<char>, u64> {
        match parent {
            Some(id) => self.pending().remove(id),
            None => self.pending(),
        }
    }

    /// Where a message that arrived on the named channel goes.
    pub open spec fn target(self, channel: Seq<char>, parent: Option<Seq<char>>) -> Delivery {
        if channel == "shell"@ || channel == "control"@ {
            self.reply_target(parent)
        } else if channel == "iopub"@ {
            Delivery::Broadcast
        } else if channel == "stdin"@ {
            Delivery::Discarded
        } else {
            Delivery::UnknownChannel
        }
    }

    /// The waiter that is pending under an identifier, if any.
    pub open spec fn waiter_of(self, id: Seq<char>) -> Option<u64> {
        if self.pending().contains_key(id) {
            Some(self.pending()[id])
        } else {
            None
        }
    }

    /// What noting a request does to a connection. One that takes no calls
    /// fails with a disconnect and changes nothing. On one that does, the
    /// request is pending afterwards under the next ticket, and the handle
    /// comes back with the waiter that the identifier held before.
    pub open spec fn registers(
        before: Self,
        after: Self,
        id: Seq<char>,
        outcome: Result<(PendingRequest, Option<u64>), Error>,
    ) -> bool {
        &&& after.is_closed() == before.is_closed()
        &&& after.queued() == before.queued()
        &&& if before.takes_calls() {
            &&& outcome matches Ok((request, displaced))
            &&& request.id() == id
            &&& request.ticket() == before.next_ticket()
            &&& displaced == before.waiter_of(id)
            &&& after.pending() == before.pending().insert(id, before.next_ticket())
            &&& after.next_ticket() == before.next_ticket() + 1
        } else {
            &&& outcome matches Err(Error::KernelDisconnect)
            &&& after.pending() == before.pending()
            &&& after.next_ticket() == before.next_ticket()
        }
    }

    /// What the queue holds once a broadcast message has arrived: on an open
    /// connection the message joins the queue at its end, and where the queue
    /// is full the oldest message leaves it; a closed connection takes
    /// nothing.
    pub open spec fn queue_after(self, message: KernelMessage) -> Seq<KernelMessage> {
        if self.is_closed() {
            self.queued()
        } else if self.queued().len() < IOPUB_QUEUE_CAPACITY {
            self.queued().push(message)
        } else {
            self.queued().skip(1).push(message)
        }
    }

    /// The message that is lost when a broadcast message arrives: the
    /// message itself on a closed connection, the oldest in the queue where
    /// the queue is full, and none otherwise.
    pub open spec fn lost_to(self, message: KernelMessage) -> Option<KernelMessage> {
        if self.is_closed() {
            Some(message)
        } else if self.queued().len() < IOPUB_QUEUE_CAPACITY {
            None
        } else {
            Some(self.queued()[0])
        }
    }

    /// The oldest message in the queue, if there is one.
    pub open spec fn oldest(self) -> Option<KernelMessage> {
        if self.queued().len() > 0 {
            Some(self.queued()[0])
        } else {
            None
        }
    }

    /// The queue without its oldest message.
    pub open spec fn queue_behind_oldest(self) -> Seq<KernelMessage> {
        if self.queued().len() > 0 {
            self.queued().skip(1)
        } else {
            self.queued()
        }
    }

    /// What asking for the next broadcast message gives: the oldest message
    /// in the queue; where the queue is empty, a disconnect on a closed
    /// connection and nothing yet on an open one.
    pub open spec fn next_iopub(self) -> Result<Option<KernelMessage>, Error> {
        if self.queued().len() > 0 {
            Ok(Some(self.queued()[0]))
        } else if self.is_closed() {
            Err(Error::KernelDisconnect)
        } else {
            Ok(None)
        }
    }

    /// An open connection on which nothing is pending and nothing queued.
    pub fn new() -> (conn: Self)
        ensures
            conn.wf(),
            !conn.is_closed(),
            conn.pending() == nothing_pending(),
            conn.queued().len() == 0,
            conn.next_ticket() == 0,
    {
        KernelConnection {
            replies: table_new(),
            next_waiter: 0,
            iopub: VecDeque::new(),
            closed: false,
        }
    }

    /// Whether the connection has been closed. A closed connection has
    /// nothing pending and nothing queued.
    pub fn closed(&self) -> (closed: bool)
        requires
            self.wf(),
        ensures
            closed == self.is_closed(),
            closed ==> self.pending() == nothing_pending() && self.queued().len() == 0,
    {
        self.closed
    }

    /// How many broadcast messages wait in the queue: never more than the
    /// queue's capacity.
    pub fn queue_len(&self) -> (len: usize)
        requires
            self.wf(),
        ensures
            len == self.queued().len(),
            len <= IOPUB_QUEUE_CAPACITY,
    {
        self.iopub.len()
    }

    fn register(&mut self, msg_id: &str) -> (outcome: Result<(PendingRequest, Option<u64>), Error>)
        requires
            old(self).wf(),
        ensures
            final(self).wf(),
            Self::registers(*old(self), *final(self), msg_id@, outcome),
    {
        if self.closed || self.next_waiter == u64::MAX {
            return Err(Error::KernelDisconnect);
        }
        let waiter: u64 = self.next_waiter;
        let displaced = table_insert(&mut self.replies, msg_id.to_owned(), waiter);
        self.next_waiter = waiter + 1;
        assert(self.waiters_are_apart()) by {
            assert forall|id: Seq<char>| #[trigger] self.pending().contains_key(id) implies self.pending()[id]
                < self.next_ticket() by {
                if id != msg_id@ {
                    assert(old(self).pending().contains_key(id));
                }
            }
            assert forall|a: Seq<char>, b: Seq<char>|
                a != b && #[trigger] self.pending().contains_key(a) && #[trigger] self.pending().contains_key(
                    b,
                ) implies self.pending()[a] != self.pending()[b] by {
                if a != msg_id@ {
                    assert(old(self).pending().contains_key(a));
                }
                if b != msg_id@ {
                    assert(old(self).pending().contains_key(b));
                }
            }
        }
        Ok((PendingRequest { msg_id: msg_id.to_owned(), waiter }, displaced))
    }

    /// Note that `message` goes out on the shell channel and that somebody
    /// awaits the reply.
    ///
    /// On a connection that takes no calls, because it is closed or because
    /// every ticket has been handed out, this fails with a disconnect and
    /// changes nothing. Otherwise the request is pending under the message's
    /// identifier and the next ticket. The handle of the request comes back,
    /// and with it the ticket of a waiter that was pending under the same
    /// identifier and will now never be served.
    pub fn call_shell<T>(&mut self, message: &KernelMessage<T>) -> (outcome: Result<
        (PendingRequest, Option<u64>),
        Error,
    >)
        requires
            old(self).wf(),
        ensures
            final(self).wf(),
            Self::registers(*old(self), *final(self), message.header.msg_id@, outcome),
    {
        self.register(message.header.msg_id.as_str())
    }

    /// Note that `message` goes out on the control channel and that somebody
    /// awaits the reply.
    ///
    /// The channels share the table of pending requests, so this does to the
    /// connection what [`KernelConnection::call_shell`] does.
    pub fn call_control<T>(&mut self, message: &KernelMessage<T>) -> (outcome: Result<
        (PendingRequest, Option<u64>),
        Error,
    >)
        requires
            old(self).wf(),
        ensures
            final(self).wf(),
            Self::registers(*old(self), *final(self), message.header.msg_id@, outcome),
    {
        self.register(message.header.msg_id.as_str())
    }

    /// Forget a request whose waiter stopped waiting.
    ///
    /// Nothing is pending under the request's identifier afterwards.
    pub fn abandon(&mut self, request: PendingRequest)
        requires
            old(self).wf(),
        ensures
            final(self).wf(),
            final(self).is_closed() == old(self).is_closed(),
            final(self).next_ticket() == old(self).next_ticket(),
            final(self).queued() == old(self).queued(),
            final(self).pending() == old(self).pending().remove(request.id()),
    {
        let _ = table_remove(&mut self.replies, request.msg_id.as_str());
        assert(old(self).is_closed() ==> self.pending() =~= nothing_pending());
        proof {
            Self::lemma_apart_kept(*old(self), *self);
        }
    }

    /// Route a message that arrived on a request channel, shell or control.
    ///
    /// A message whose parent is pending goes to the waiter of that request,
    /// and the request is no longer pending. Any other message is discarded
    /// and changes nothing.
    pub fn route_reply<T>(&mut self, message: &KernelMessage<T>) -> (delivery: Delivery)
        requires
            old(self).wf(),
        ensures
            final(self).wf(),
            final(self).is_closed() == old(self).is_closed(),
            final(self).next_ticket() == old(self).next_ticket(),
            final(self).queued() == old(self).queued(),
            delivery == old(self).reply_target(message.parent_id()),
            final(self).pending() == old(self).after_reply(message.parent_id()),
    {
        match &message.parent_header {
            Some(parent) => {
                let removed = table_remove(&mut self.replies, parent.msg_id.as_str());
                assert(old(self).is_closed() ==> self.pending() =~= nothing_pending());
                match removed {
                    Some(waiter) => Delivery::Reply(waiter),
                    None => {
                        assert(self.pending() =~= old(self).pending());
                        Delivery::Discarded
                    },
                }
            },
            None => Delivery::Discarded,
        }
    }

    /// Route a message that arrived with the name of its channel.
    ///
    /// Messages on `shell` and `control` are routed as replies, messages on
    /// `iopub` are broadcast, messages on `stdin` are discarded, and any other
    /// channel is reported as unknown. Only a delivered reply changes what is
    /// pending.
    pub fn route<T>(&mut self, channel: &str, message: &KernelMessage<T>) -> (delivery: Delivery)
        requires
            old(self).wf(),
        ensures
            final(self).wf(),
            final(self).is_closed() == old(self).is_closed(),
            final(self).next_ticket() == old(self).next_ticket(),
            final(self).queued() == old(self).queued(),
            delivery == old(self).target(channel@, message.parent_id()),
            final(self).pending() == if delivery is Reply {
                old(self).after_reply(message.parent_id())
            } else {
                old(self).pending()
            },
    {
        if str_eq(channel, "shell") || str_eq(channel, "control") {
            let delivery = self.route_reply(message);
            assert(!(delivery is Reply) ==> self.pending() =~= old(self).pending());
            delivery
        } else if str_eq(channel, "iopub") {
            Delivery::Broadcast
        } else if str_eq(channel, "stdin") {
            Delivery::Discarded
        } else {
            Delivery::UnknownChannel
        }
    }

    /// What receiving a message on the named channel comes to: a reply goes
    /// to its waiter, a broadcast message is queued unless the connection is
    /// closed, and anything else is dropped.
    pub open spec fn inbound(self, channel: Seq<char>, message: KernelMessage) -> Inbound {
        match self.target(channel, message.parent_id()) {
            Delivery::Reply(waiter) => Inbound::Reply(waiter, message),
            Delivery::Broadcast => if self.is_closed() {
                Inbound::Discarded
            } else {
                Inbound::Queued(self.lost_to(message))
            },
            Delivery::Discarded => Inbound::Discarded,
            Delivery::UnknownChannel => Inbound::UnknownChannel,
        }
    }

    /// Receive a message that arrived with the name of its channel, and tell
    /// what is to be done with it.
    ///
    /// A reply on `shell` or `control` whose request is pending is for the
    /// waiter of that request, and the request is no longer pending. A
    /// message on `iopub` joins the queue of broadcast messages of an open
    /// connection. Anything else changes nothing.
    pub fn receive(&mut self, channel: &str, message: KernelMessage) -> (inbound: Inbound)
        requires
            old(self).wf(),
        ensures
            final(self).wf(),
            final(self).is_closed() == old(self).is_closed(),
            final(self).next_ticket() == old(self).next_ticket(),
            inbound == old(self).inbound(channel@, message),
            final(self).pending() == if inbound is Reply {
                old(self).after_reply(message.parent_id())
            } else {
                old(self).pending()
            },
            final(self).queued() == if inbound is Queued {
                old(self).queue_after(message)
            } else {
                old(self).queued()
            },
    {
        match self.route(channel, &message) {
            Delivery::Reply(waiter) => Inbound::Reply(waiter, message),
            Delivery::Broadcast => if self.closed {
                Inbound::Discarded
            } else {
                Inbound::Queued(self.publish(message))
            },
            Delivery::Discarded => Inbound::Discarded,
            Delivery::UnknownChannel => Inbound::UnknownChannel,
        }
    }

    /// Take in a broadcast message that arrived on the iopub channel.
    ///
    /// On an open connection the message joins the queue at its end. Where
    /// the queue is full, the oldest message leaves it to make room and comes
    /// back. A closed connection takes nothing, and the message comes back.
    pub fn publish(&mut self, message: KernelMessage) -> (lost: Option<KernelMessage>)
        requires
            old(self).wf(),
        ensures
            final(self).wf(),
            final(self).is_closed() == old(self).is_closed(),
            final(self).next_ticket() == old(self).next_ticket(),
            final(self).pending() == old(self).pending(),
            final(self).queued() == old(self).queue_after(message),
            lost == old(self).lost_to(message),
    {
        if self.closed {
            return Some(message);
        }
        let lost = if self.iopub.len() >= IOPUB_QUEUE_CAPACITY {
            self.iopub.pop_front()
        } else {
            None
        };
        self.iopub.push_back(message);
        assert(self.queued() =~= old(self).queue_after(message));
        proof {
            Self::lemma_apart_kept(*old(self), *self);
        }
        lost
    }

    /// Receive an immediate message over the iopub channel without waiting:
    /// the oldest message in the queue, which leaves the queue, or nothing
    /// where the queue is empty.
    pub fn try_recv_iopub(&mut self) -> (message: Option<KernelMessage>)
        requires
            old(self).wf(),
        ensures
            final(self).wf(),
            final(self).is_closed() == old(self).is_closed(),
            final(self).next_ticket() == old(self).next_ticket(),
            final(self).pending() == old(self).pending(),
            message == old(self).oldest(),
            final(self).queued() == old(self).queue_behind_oldest(),
    {
        let message = self.iopub.pop_front();
        assert(self.queued() =~= old(self).queue_behind_oldest());
        proof {
            Self::lemma_apart_kept(*old(self), *self);
        }
        message
    }

    /// Receive a message from the kernel over the iopub channel.
    ///
    /// The oldest message in the queue comes back and leaves the queue. Where
    /// the queue is empty, a closed connection gives a disconnect, and an
    /// open one gives nothing yet: the caller waits for the next message to
    /// arrive and asks again.
    pub fn recv_iopub(&mut self) -> (message: Result<Option<KernelMessage>, Error>)
        requires
            old(self).wf(),
        ensures
            final(self).wf(),
            final(self).is_closed() == old(self).is_closed(),
            final(self).next_ticket() == old(self).next_ticket(),
            final(self).pending() == old(self).pending(),
            message == old(self).next_iopub(),
            final(self).queued() == old(self).queue_behind_oldest(),
    {
        match self.try_recv_iopub() {
            Some(message) => Ok(Some(message)),
            None => if self.closed {
                Err(Error::KernelDisconnect)
            } else {
                Ok(None)
            },
        }
    }

    /// Throw away the broadcast messages that linger in the queue, and tell
    /// how many they were.
    pub fn drain_iopub(&mut self) -> (count: usize)
        requires
            old(self).wf(),
        ensures
            final(self).wf(),
            final(self).is_closed() == old(self).is_closed(),
            final(self).next_ticket() == old(self).next_ticket(),
            final(self).pending() == old(self).pending(),
            final(self).queued().len() == 0,
            count == old(self).queued().len(),
    {
        let count = self.iopub.len();
        self.iopub.clear();
        proof {
            Self::lemma_apart_kept(*old(self), *self);
        }
        count
    }

    /// Close the connection.
    ///
    /// Nothing is pending and nothing queued afterwards: every waiter is to
    /// be told that the kernel is disconnected, and every later call fails
    /// the same way.
    pub fn close(&mut self)
        requires
            old(self).wf(),
        ensures
            final(self).wf(),
            final(self).is_closed(),
            final(self).next_ticket() == old(self).next_ticket(),
            final(self).pending() == nothing_pending(),
            final(self).queued().len() == 0,
    {
        table_clear(&mut self.replies);
        self.iopub.clear();
        self.closed = true;
    }
}

/// A reply reaches the waiter of its request, and no second reply does.
///
/// Once a request is noted on a connection that takes calls, a reply to it
/// goes to its waiter, whose ticket no pending request held before. When
/// that reply has been routed, another reply to the same request is
/// discarded, and the waiters of all other requests are still the ones they
/// were before the request was noted.
pub proof fn lemma_reply_reaches_one_waiter(
    start: KernelConnection,
    noted: KernelConnection,
    served: KernelConnection,
    id: Seq<char>,
    outcome: Result<(PendingRequest, Option<u64>), Error>,
)
    requires
        start.wf(),
        start.takes_calls(),
        KernelConnection::registers(start, noted, id, outcome),
        served.pending() == noted.after_reply(Some(id)),
    ensures
        noted.reply_target(Some(id)) == Delivery::Reply(start.next_ticket()),
        forall|other: Seq<char>| #[trigger]
            start.pending().contains_key(other) ==> start.pending()[other] != start.next_ticket(),
        served.reply_target(Some(id)) == Delivery::Discarded,
        forall|other: Seq<char>|
            other != id ==> #[trigger] served.waiter_of(other) == start.waiter_of(other),
{
}

/// No two pending requests share a waiter, and every ticket in use was
/// handed out before the next one.
pub proof fn lemma_waiters_are_apart(conn: KernelConnection)
    requires
        conn.wf(),
    ensures
        conn.waiters_are_apart(),
{
}

/// Requests under different identifiers do not disturb each other: noting
/// one leaves the waiter of the other in place.
pub proof fn lemma_requests_are_independent(
    start: KernelConnection,
    noted: KernelConnection,
    id: Seq<char>,
    outcome: Result<(PendingRequest, Option<u64>), Error>,
    other: Seq<char>,
)
    requires
        KernelConnection::registers(start, noted, id, outcome),
        other != id,
    ensures
        noted.waiter_of(other) == start.waiter_of(other),
        noted.reply_target(Some(other)) == start.reply_target(Some(other)),
{
}

/// An abandoned request is served no more, and the other requests stay.
pub proof fn lemma_abandoned_request_is_gone(
    before: KernelConnection,
    after: KernelConnection,
    id: Seq<char>,
)
    requires
        after.pending() == before.pending().remove(id),
    ensures
        after.reply_target(Some(id)) == Delivery::Discarded,
        forall|other: Seq<char>|
            other != id ==> #[trigger] after.waiter_of(other) == before.waiter_of(other),
{
}

/// A closed connection serves nobody: every call fails with a disconnect,
/// nothing becomes pending, no message is delivered to a waiter, a broadcast
/// message that arrives is lost, and whoever asks for a broadcast message is
/// told of the disconnect.
pub proof fn lemma_closed_connection_serves_nobody(
    closed: KernelConnection,
    after: KernelConnection,
    id: Seq<char>,
    outcome: Result<(PendingRequest, Option<u64>), Error>,
    channel: Seq<char>,
    parent: Option<Seq<char>>,
    message: KernelMessage,
)
    requires
        closed.wf(),
        closed.is_closed(),
        KernelConnection::registers(closed, after, id, outcome),
    ensures
        outcome matches Err(Error::KernelDisconnect),
        after.is_closed(),
        after.pending() == nothing_pending(),
        !(closed.target(channel, parent) is Reply),
        closed.inbound(channel, message) is Discarded || closed.inbound(channel, message)
            is UnknownChannel,
        closed.queue_after(message).len() == 0,
        closed.next_iopub() matches Err(Error::KernelDisconnect),
{
}

/// Broadcast messages are read in the order in which they arrived: on an
/// open connection whose queue is not full, a message that arrives is read
/// after all that were queued before it, and they are read as before.
pub proof fn lemma_queue_is_first_in_first_out(conn: KernelConnection, message: KernelMessage)
    requires
        conn.wf(),
        !conn.is_closed(),
        conn.queued().len() < IOPUB_QUEUE_CAPACITY,
    ensures
        conn.queue_after(message).len() == conn.queued().len() + 1,
        conn.queue_after(message).last() == message,
        forall|i: int|
            0 <= i < conn.queued().len() ==> #[trigger] conn.queue_after(message)[i]
                == conn.queued()[i],
{
}

} // verus!
