//! The request/response channel: identifiers for outgoing requests, and the
//! pairing of incoming responses with the request they answer.
//!
//! The channel does no I/O. What is sent waits in a queue until the transport
//! takes it, and what the transport receives is delivered into a second queue
//! that the waiters read.

use vstd::prelude::*;
use std::collections::VecDeque;
use crate::error::Error;
use crate::protocol::request::Request as rRequest;
use crate::protocol::{Request, Response, Status};

verus! {

/// The identifier that follows `n`: one more, and zero after the largest.
pub open spec fn next_id(n: u32) -> u32 {
    if n == u32::MAX {
        0
    } else {
        (n + 1) as u32
    }
}

/// Identifiers go up one by one until the largest, and start again at zero
/// after it.
pub proof fn lemma_next_id(n: u32)
    ensures
        n < u32::MAX ==> next_id(n) == n + 1 && next_id(n) > n,
        n == u32::MAX ==> next_id(n) == 0,
{
}

/// Counter of the requests sent on one connection. It never goes back but
/// where it wraps around after the largest identifier.
#[derive(Debug)]
pub struct IdCounter {
    count: u32,
}

impl View for IdCounter {
    type V = u32;

    closed spec fn view(&self) -> u32 {
        self.count
    }
}

impl IdCounter {
    /// A counter that has counted nothing yet.
    pub fn new() -> (counter: Self)
        ensures
            counter@ == 0,
    {
        IdCounter { count: 0 }
    }

    /// A counter that has counted `count` requests.
    pub fn starting_at(count: u32) -> (counter: Self)
        ensures
            counter@ == count,
    {
        IdCounter { count }
    }

    /// The identifier given out last.
    pub fn current(&self) -> (count: u32)
        ensures
            count == self@,
    {
        self.count
    }

    /// Counts one more request and returns its identifier. After the largest
    /// identifier the counter starts again at zero.
    pub fn increment(&mut self) -> (id: u32)
        ensures
            id == next_id(old(self)@),
            final(self)@ == id,
            old(self)@ < u32::MAX ==> id > old(self)@,
    {
        self.count = self.count.wrapping_add(1);
        self.count
    }
}

/// Whether two optional identifiers are the same.
pub fn same_id(a: Option<u32>, b: Option<u32>) -> (same: bool)
    ensures
        same == (a == b),
{
    match (a, b) {
        (Some(x), Some(y)) => x == y,
        (None, None) => true,
        _ => false,
    }
}

/// Whether an item of the response stream is a response that carries the
/// identifier `id`.
pub open spec fn matches_id(resp: Result<Response, Error>, id: Option<u32>) -> bool {
    resp matches Ok(r) && r.id == id
}

/// Whether an item of the response stream is a response that carries the
/// identifier `id`. A failure of the stream carries none.
pub fn id_filter(resp: &Result<Response, Error>, id: Option<u32>) -> (keep: bool)
    ensures
        keep == matches_id(*resp, id),
{
    match resp {
        Ok(r) => same_id(r.id, id),
        Err(_) => false,
    }
}

/// Checks that a response carries the status that a command expects.
pub fn validate_status(status: Option<Status>, expected: Status) -> (r: Result<(), Error>)
    ensures
        r == if status == Some(expected) {
            Ok::<(), Error>(())
        } else {
            Err(Error::UnexpectedStatus { expected, found: status })
        },
{
    match status {
        Some(found) => {
            if found == expected {
                Ok(())
            } else {
                Err(Error::UnexpectedStatus { expected, found: status })
            }
        },
        None => Err(Error::UnexpectedStatus { expected, found: status }),
    }
}

/// Whether the work that was asked for is done.
#[derive(Debug, Clone, PartialEq, Eq)]
pub enum Poll<T> {
    /// It is done, with this result.
    Ready(T),
    /// It waits for more input.
    Pending,
}

/// Whether an item ends the wait for the response to `id`: the response with
/// that identifier does, and so does a failure of the stream. A response with
/// another identifier does not: it is dropped.
pub open spec fn decisive(item: Result<Response, Error>, id: Option<u32>) -> bool {
    match item {
        Ok(r) => r.id == id,
        Err(_) => true,
    }
}

/// How many items at the head of `items` a waiter for `id` drops before it
/// finds one that ends its wait.
pub open spec fn discarded(items: Seq<Result<Response, Error>>, id: Option<u32>) -> nat
    decreases items.len(),
{
    if items.len() == 0 || decisive(items[0], id) {
        0
    } else {
        1 + discarded(items.skip(1), id)
    }
}

/// What a waiter for `id` gets from a stream that holds `items` and is
/// `closed` or still open behind them.
pub open spec fn awaited(items: Seq<Result<Response, Error>>, closed: bool, id: Option<u32>) -> Poll<
    Result<Response, Error>,
> {
    let k = discarded(items, id) as int;
    if k < items.len() {
        Poll::Ready(items[k])
    } else if closed {
        Poll::Ready(Err(Error::Disconnected))
    } else {
        Poll::Pending
    }
}

/// What is left of the stream once a waiter for `id` has read from it.
pub open spec fn remaining(items: Seq<Result<Response, Error>>, id: Option<u32>) -> Seq<
    Result<Response, Error>,
> {
    let k = discarded(items, id) as int;
    if k < items.len() {
        items.skip(k + 1)
    } else {
        Seq::empty()
    }
}

/// The dropped items are at the head of the stream, none of them ends the
/// wait, and the item behind them, if there is one, does.
pub proof fn lemma_discarded(items: Seq<Result<Response, Error>>, id: Option<u32>)
    ensures
        discarded(items, id) <= items.len(),
        forall|i: int| 0 <= i < discarded(items, id) ==> !decisive(#[trigger] items[i], id),
        discarded(items, id) < items.len() ==> decisive(items[discarded(items, id) as int], id),
    decreases items.len(),
{
    if items.len() == 0 || decisive(items[0], id) {
    } else {
        let rest = items.skip(1);
        lemma_discarded(rest, id);
        assert forall|i: int| 0 <= i < discarded(items, id) implies !decisive(
            #[trigger] items[i],
            id,
        ) by {
            if i > 0 {
                assert(items[i] == rest[i - 1]);
            }
        }
        assert(discarded(rest, id) < rest.len() ==> rest[discarded(rest, id) as int]
            == items[discarded(items, id) as int]);
    }
}

/// A response is paired with a waiter only where it carries the waiter's
/// identifier, and a response that carries another identifier does not end
/// the wait: with it in front, the waiter gets what it would get without it,
/// and leaves behind what it would leave without it.
pub proof fn lemma_paired_by_id_alone(
    items: Seq<Result<Response, Error>>,
    closed: bool,
    id: Option<u32>,
    other: Response,
)
    requires
        other.id != id,
    ensures
        awaited(items, closed, id) matches Poll::Ready(Ok(response)) ==> response.id == id,
        awaited(seq![Ok(other)] + items, closed, id) == awaited(items, closed, id),
        remaining(seq![Ok(other)] + items, id) == remaining(items, id),
        awaited(seq![Ok(other)], false, id) == Poll::<Result<Response, Error>>::Pending,
{
    lemma_discarded(items, id);
    let with = seq![Ok::<Response, Error>(other)] + items;
    assert(with.skip(1) =~= items);
    assert(!decisive(with[0], id));
    assert(discarded(with, id) == 1 + discarded(items, id));
    let k = discarded(items, id) as int;
    if k < items.len() {
        assert(with[k + 1] == items[k]);
        assert(with.skip(k + 2) =~= items.skip(k + 1));
    }
    let alone = seq![Ok::<Response, Error>(other)];
    assert(alone.skip(1) =~= Seq::<Result<Response, Error>>::empty());
    assert(discarded(alone.skip(1), id) == 0);
    assert(!decisive(alone[0], id));
    assert(discarded(alone, id) == 1);
}

/// What a channel holds.
pub struct ChannelView {
    /// The identifier given out last.
    pub count: u32,
    /// The requests that wait for the transport, oldest first.
    pub outbound: Seq<Request>,
    /// What the transport received and no waiter has read, oldest first.
    pub inbound: Seq<Result<Response, Error>>,
    /// Whether the response stream has closed.
    pub closed: bool,
}

impl ChannelView {
    /// A channel on which nothing waits, after `count` requests.
    pub open spec fn fresh(count: u32) -> ChannelView {
        ChannelView { count, outbound: Seq::empty(), inbound: Seq::empty(), closed: false }
    }
}

/// One connection's requests and responses.
#[derive(Debug)]
pub struct Channel {
    counter: IdCounter,
    outbound: Vec<Request>,
    inbound: VecDeque<Result<Response, Error>>,
    closed: bool,
}

impl View for Channel {
    type V = ChannelView;

    closed spec fn view(&self) -> ChannelView {
        ChannelView {
            count: self.counter@,
            outbound: self.outbound@,
            inbound: self.inbound@,
            closed: self.closed,
        }
    }
}

impl Channel {
    /// A channel on which nothing was sent or received.
    pub fn new() -> (channel: Self)
        ensures
            channel@ == ChannelView::fresh(0),
    {
        Channel::starting_at(0)
    }

    /// A channel of a new connection, after `count` requests were sent on
    /// earlier ones.
    pub fn starting_at(count: u32) -> (channel: Self)
        ensures
            channel@ == ChannelView::fresh(count),
    {
        Channel {
            counter: IdCounter::starting_at(count),
            outbound: Vec::new(),
            inbound: VecDeque::new(),
            closed: false,
        }
    }

    /// The identifier of the request sent last; zero where none was sent.
    pub fn count(&self) -> (count: u32)
        ensures
            count == self@.count,
    {
        self.counter.current()
    }

    /// Whether the response stream has closed.
    pub fn is_closed(&self) -> (closed: bool)
        ensures
            closed == self@.closed,
    {
        self.closed
    }

    /// Gives the request the next identifier and queues it for the transport.
    pub fn send(&mut self, request: rRequest) -> (id: u32)
        ensures
            id == next_id(old(self)@.count),
            final(self)@ == (ChannelView {
                count: id,
                outbound: old(self)@.outbound.push(Request::enveloped(request, id)),
                ..old(self)@
            }),
    {
        let id = self.counter.increment();
        self.outbound.push(Request { id: Some(id), request: Some(request) });
        id
    }

    /// Hands the queued requests to the transport, oldest first.
    pub fn take_outbound(&mut self) -> (requests: Vec<Request>)
        ensures
            requests@ == old(self)@.outbound,
            final(self)@ == (ChannelView { outbound: Seq::empty(), ..old(self)@ }),
    {
        let mut requests: Vec<Request> = Vec::new();
        std::mem::swap(&mut self.outbound, &mut requests);
        requests
    }

    /// Takes in what the transport received: a response, or the failure of
    /// the stream.
    pub fn deliver(&mut self, item: Result<Response, Error>)
        ensures
            final(self)@ == (ChannelView { inbound: old(self)@.inbound.push(item), ..old(self)@ }),
    {
        self.inbound.push_back(item);
    }

    /// Notes that the response stream has closed.
    pub fn close(&mut self)
        ensures
            final(self)@ == (ChannelView { closed: true, ..old(self)@ }),
    {
        self.closed = true;
    }

    /// Reads the response stream for the response to `id`. Responses with
    /// another identifier are dropped. The wait ends with the response that
    /// carries `id`, with the failure of the stream, or, where the stream has
    /// closed, with `Disconnected`; until then it is pending.
    pub fn await_matching(&mut self, id: Option<u32>) -> (poll: Poll<Result<Response, Error>>)
        ensures
            poll == awaited(old(self)@.inbound, old(self)@.closed, id),
            final(self)@ == (ChannelView {
                inbound: remaining(old(self)@.inbound, id),
                ..old(self)@
            }),
    {
        let ghost items = self.inbound@;
        let ghost mut n: int = 0;
        loop
            invariant
                0 <= n <= items.len(),
                self.inbound@ == items.skip(n),
                discarded(items, id) == n + discarded(items.skip(n), id),
                self.counter == old(self).counter,
                self.outbound == old(self).outbound,
                self.closed == old(self).closed,
                items == old(self).inbound@,
            decreases items.len() - n,
        {
            match self.inbound.pop_front() {
                Some(item) => {
                    assert(item == items[n]);
                    if decides(&item, id) {
                        proof {
                            assert(items.skip(n).subrange(
                                1,
                                items.skip(n).len() as int,
                            ) =~= items.skip(n + 1));
                        }
                        return Poll::Ready(item);
                    }
                    proof {
                        assert(items.skip(n).skip(1) =~= items.skip(n + 1));
                        assert(items.skip(n).subrange(
                            1,
                            items.skip(n).len() as int,
                        ) =~= items.skip(n + 1));
                        n = n + 1;
                    }
                },
                None => {
                    assert(self.inbound@ =~= Seq::empty());
                    if self.closed {
                        return Poll::Ready(Err(Error::Disconnected));
                    }
                    return Poll::Pending;
                },
            }
        }
    }
}

/// Whether an item ends the wait for the response to `id`.
pub fn decides(item: &Result<Response, Error>, id: Option<u32>) -> (d: bool)
    ensures
        d == decisive(*item, id),
{
    match item {
        Ok(r) => same_id(r.id, id),
        Err(_) => true,
    }
}

} // verus!
