//! The requests that wait for a response.

use vstd::prelude::*;

use crate::network::channel::{handed_over, reply_channel, reply_halves, send_reply, Reply};
use crate::network::error::ClientError;
use crate::proto::io::S2cMessage;
use crate::registry::{lemma_lists_reverse, lists, Registry};
use tokio::sync::oneshot;

verus! {

/// A reply and the channel that leads to whoever waits for it.
pub struct Delivery {
    pub sender: oneshot::Sender<Reply>,
    pub reply: Reply,
}

impl Delivery {
    /// Hands the reply over; if nobody waits for it any more, it comes back.
    pub fn send(self) -> (sent: Result<(), Reply>)
        ensures
            handed_over(self.sender, self.reply, sent),
            sent matches Err(back) ==> back == self.reply,
    {
        send_reply(self.sender, self.reply)
    }
}

/// The open requests by correlation id, each with the channel to whoever waits for its response.
pub struct InflightRequests {
    requests: Registry<String, oneshot::Sender<Reply>>,
}

/// The open requests of an [`InflightRequests`].
pub type OpenRequests = Map<Seq<char>, oneshot::Sender<Reply>>;

impl View for InflightRequests {
    type V = OpenRequests;

    closed spec fn view(&self) -> OpenRequests {
        self.requests@
    }
}

/// The deliveries that tell every open request of an error: one for each, and nothing else.
pub open spec fn fails_each(deliveries: Seq<Delivery>, open: OpenRequests, err: ClientError) -> bool {
    exists|listing: Seq<(String, oneshot::Sender<Reply>)>|
        {
            &&& #[trigger] lists(listing, open)
            &&& deliveries.len() == listing.len()
            &&& forall|i: int|
                0 <= i < deliveries.len() ==> (#[trigger] deliveries[i]).sender == listing[i].1
                    && deliveries[i].reply == Err::<S2cMessage, ClientError>(err)
        }
}

/// How telling every open request of an error ended, request by request.
pub open spec fn failed_each(
    sent: Seq<Result<(), Reply>>,
    open: OpenRequests,
    err: ClientError,
) -> bool {
    exists|deliveries: Seq<Delivery>|
        {
            &&& #[trigger] fails_each(deliveries, open, err)
            &&& sent.len() == deliveries.len()
            &&& forall|i: int|
                0 <= i < sent.len() ==> handed_over(
                    deliveries[i].sender,
                    deliveries[i].reply,
                    #[trigger] sent[i],
                )
        }
}

/// The order of the deliveries does not matter.
proof fn lemma_fails_each_reverse(deliveries: Seq<Delivery>, open: OpenRequests, err: ClientError)
    requires
        fails_each(deliveries, open, err),
    ensures
        fails_each(deliveries.reverse(), open, err),
{
    let listing = choose|listing: Seq<(String, oneshot::Sender<Reply>)>|
        {
            &&& #[trigger] lists(listing, open)
            &&& deliveries.len() == listing.len()
            &&& forall|i: int|
                0 <= i < deliveries.len() ==> (#[trigger] deliveries[i]).sender == listing[i].1
                    && deliveries[i].reply == Err::<S2cMessage, ClientError>(err)
        };
    lemma_lists_reverse(listing, open);
    let back = deliveries.reverse();
    assert forall|i: int| 0 <= i < back.len() implies (#[trigger] back[i]).sender
        == listing.reverse()[i].1 && back[i].reply == Err::<S2cMessage, ClientError>(err) by {
        assert(back[i] == deliveries[deliveries.len() - 1 - i]);
    }
}

impl Default for InflightRequests {
    fn default() -> (requests: Self)
        ensures
            requests@ == Map::<Seq<char>, oneshot::Sender<Reply>>::empty(),
    {
        InflightRequests { requests: Registry::new() }
    }
}

impl InflightRequests {
    /// No open request.
    pub fn new() -> (requests: Self)
        ensures
            requests@ == Map::<Seq<char>, oneshot::Sender<Reply>>::empty(),
    {
        Self::default()
    }

    /// Opens a request; the reply comes out of the channel that is returned. A request that was
    /// open under the same id is given up.
    pub fn add(&mut self, correlation_id: String) -> (receiver: oneshot::Receiver<Reply>)
        ensures
            final(self)@ == old(self)@.insert(correlation_id@, final(self)@[correlation_id@]),
            reply_halves(final(self)@[correlation_id@], receiver),
            final(self)@.len() == old(self)@.len() + if old(self)@.contains_key(correlation_id@) {
                0nat
            } else {
                1nat
            },
    {
        let (sender, receiver) = reply_channel();
        self.requests.insert(correlation_id, sender);
        proof {
            assert(self@ =~= old(self)@.insert(correlation_id@, self@[correlation_id@]));
        }
        receiver
    }

    /// Closes the request that a message answers, and gives the delivery of the answer. A message
    /// that answers no open request is dropped.
    pub fn take_reply(&mut self, message: S2cMessage) -> (delivery: Option<Delivery>)
        ensures
            final(self)@ == old(self)@.remove(message.correlation_id@),
            match delivery {
                Some(delivery) => old(self)@.contains_key(message.correlation_id@)
                    && delivery.sender == old(self)@[message.correlation_id@] && delivery.reply
                    == Ok::<S2cMessage, ClientError>(message),
                None => !old(self)@.contains_key(message.correlation_id@),
            },
    {
        match self.requests.remove(&message.correlation_id) {
            Some(sender) => Some(Delivery { sender, reply: Ok(message) }),
            None => None,
        }
    }

    /// Closes every request, and gives the deliveries that tell each of the error.
    pub fn take_failures(&mut self, err: &ClientError) -> (deliveries: Vec<Delivery>)
        ensures
            final(self)@ == Map::<Seq<char>, oneshot::Sender<Reply>>::empty(),
            fails_each(deliveries@, old(self)@, *err),
    {
        let mut listing = self.requests.drain();
        let ghost all = listing@;
        let mut deliveries: Vec<Delivery> = Vec::new();
        while listing.len() > 0
            invariant
                listing@ == all.take(all.len() - deliveries@.len()),
                deliveries@.len() <= all.len(),
                forall|i: int|
                    0 <= i < deliveries@.len() ==> (#[trigger] deliveries@[i]).sender
                        == all.reverse()[i].1 && deliveries@[i].reply == Err::<
                        S2cMessage,
                        ClientError,
                    >(*err),
            decreases listing.len(),
        {
            if let Some(entry) = listing.pop() {
                deliveries.push(Delivery { sender: entry.1, reply: Err(err.clone()) });
                assert(listing@ =~= all.take(all.len() - deliveries@.len()));
            }
        }
        proof {
            lemma_lists_reverse(all, old(self)@);
        }
        deliveries
    }

    /// Answers the request that a message is for. Nothing comes back where no such request is
    /// open; otherwise how the handover ended.
    pub fn respond(&mut self, message: S2cMessage) -> (sent: Option<Result<(), Reply>>)
        ensures
            final(self)@ == old(self)@.remove(message.correlation_id@),
            match sent {
                Some(sent) => old(self)@.contains_key(message.correlation_id@) && handed_over(
                    old(self)@[message.correlation_id@],
                    Ok(message),
                    sent,
                ),
                None => !old(self)@.contains_key(message.correlation_id@),
            },
            sent matches Some(Err(back)) ==> back == Ok::<S2cMessage, ClientError>(message),
    {
        match self.take_reply(message) {
            Some(delivery) => Some(delivery.send()),
            None => None,
        }
    }

    /// Gives a request up.
    pub fn discard(&mut self, correlation_id: String)
        ensures
            final(self)@ == old(self)@.remove(correlation_id@),
    {
        self.requests.remove(&correlation_id);
    }

    /// Tells every open request of an error, and closes them; what comes back says of each how
    /// the handover ended.
    pub fn fail_all(&mut self, err: &ClientError) -> (sent: Vec<Result<(), Reply>>)
        ensures
            final(self)@ == Map::<Seq<char>, oneshot::Sender<Reply>>::empty(),
            failed_each(sent@, old(self)@, *err),
            forall|i: int|
                0 <= i < sent.len() ==> (#[trigger] sent[i] matches Err(back) ==> back == Err::<
                    S2cMessage,
                    ClientError,
                >(*err)),
    {
        let mut deliveries = self.take_failures(err);
        let ghost all = deliveries@;
        let mut sent: Vec<Result<(), Reply>> = Vec::new();
        while deliveries.len() > 0
            invariant
                fails_each(all, old(self)@, *err),
                deliveries@ == all.take(all.len() - sent@.len()),
                sent@.len() <= all.len(),
                forall|i: int|
                    0 <= i < sent@.len() ==> handed_over(
                        all.reverse()[i].sender,
                        all.reverse()[i].reply,
                        #[trigger] sent@[i],
                    ),
                forall|i: int|
                    0 <= i < sent@.len() ==> (#[trigger] sent@[i] matches Err(back) ==> back == Err::<
                        S2cMessage,
                        ClientError,
                    >(*err)),
            decreases deliveries.len(),
        {
            if let Some(delivery) = deliveries.pop() {
                assert(delivery == all[all.len() - sent@.len() - 1]);
                sent.push(delivery.send());
                assert(deliveries@ =~= all.take(all.len() - sent@.len()));
            }
        }
        proof {
            lemma_fails_each_reverse(all, old(self)@, *err);
        }
        sent
    }

    /// Gives every request up.
    pub fn clear(&mut self)
        ensures
            final(self)@ == Map::<Seq<char>, oneshot::Sender<Reply>>::empty(),
    {
        self.requests = Registry::new();
    }

    /// The number of open requests.
    pub fn size(&self) -> (count: usize)
        ensures
            count == self@.len(),
            self@.dom().finite(),
    {
        self.requests.len()
    }
}

/// A request that was answered or given up is not open any more, and the others stay as they
/// were.
pub proof fn law_requests_are_closed_one_by_one(open: OpenRequests, closed: Seq<char>, other: Seq<char>)
    requires
        closed != other,
    ensures
        !open.remove(closed).contains_key(closed),
        open.remove(closed).contains_key(other) == open.contains_key(other),
        open.contains_key(other) ==> open.remove(closed)[other] == open[other],
        open.dom().finite() && open.contains_key(closed) ==> open.remove(closed).len() == open.len()
            - 1,
{
}

/// Where every open request is told of an error, each one is told once, through its own channel,
/// and nobody else is told anything.
pub proof fn law_every_request_is_told(deliveries: Seq<Delivery>, open: OpenRequests, err: ClientError)
    requires
        fails_each(deliveries, open, err),
    ensures
        deliveries.len() == open.len(),
        forall|correlation_id: Seq<char>| #[trigger]
            open.contains_key(correlation_id) ==> exists|i: int|
                0 <= i < deliveries.len() && (#[trigger] deliveries[i]).sender
                    == open[correlation_id],
        forall|i: int|
            #![trigger deliveries[i]]
            0 <= i < deliveries.len() ==> deliveries[i].reply == Err::<S2cMessage, ClientError>(err)
                && exists|correlation_id: Seq<char>| #[trigger]
                open.contains_key(correlation_id) && open[correlation_id] == deliveries[i].sender,
{
    let listing = choose|listing: Seq<(String, oneshot::Sender<Reply>)>|
        {
            &&& #[trigger] lists(listing, open)
            &&& deliveries.len() == listing.len()
            &&& forall|i: int|
                0 <= i < deliveries.len() ==> (#[trigger] deliveries[i]).sender == listing[i].1
                    && deliveries[i].reply == Err::<S2cMessage, ClientError>(err)
        };
    assert forall|correlation_id: Seq<char>| #[trigger]
        open.contains_key(correlation_id) implies exists|i: int|
        0 <= i < deliveries.len() && (#[trigger] deliveries[i]).sender == open[correlation_id] by {
        let i = choose|i: int|
            0 <= i < listing.len() && (#[trigger] listing[i]).0@ == correlation_id;
        assert(deliveries[i].sender == listing[i].1);
    }
    assert forall|i: int| #![trigger deliveries[i]] 0 <= i < deliveries.len() implies deliveries[i].reply
        == Err::<S2cMessage, ClientError>(err) && exists|correlation_id: Seq<char>| #[trigger]
        open.contains_key(correlation_id) && open[correlation_id] == deliveries[i].sender by {
        assert(open.contains_key(listing[i].0@));
    }
}

/// Failing all requests is an attempt to hand the error over through the channel of each of them,
/// and through no other channel; an outcome is reported for every one.
pub proof fn law_every_request_is_failed(
    sent: Seq<Result<(), Reply>>,
    open: OpenRequests,
    err: ClientError,
    correlation_id: Seq<char>,
    i: int,
)
    requires
        failed_each(sent, open, err),
        open.contains_key(correlation_id),
        0 <= i < sent.len(),
    ensures
        sent.len() == open.len(),
        exists|j: int|
            0 <= j < sent.len() && handed_over(open[correlation_id], Err(err), #[trigger] sent[j]),
        exists|id: Seq<char>| #[trigger]
            open.contains_key(id) && handed_over(open[id], Err(err), sent[i]),
{
    let deliveries = choose|deliveries: Seq<Delivery>|
        {
            &&& #[trigger] fails_each(deliveries, open, err)
            &&& sent.len() == deliveries.len()
            &&& forall|i: int|
                0 <= i < sent.len() ==> handed_over(
                    deliveries[i].sender,
                    deliveries[i].reply,
                    #[trigger] sent[i],
                )
        };
    let listing = choose|listing: Seq<(String, oneshot::Sender<Reply>)>|
        {
            &&& #[trigger] lists(listing, open)
            &&& deliveries.len() == listing.len()
            &&& forall|i: int|
                0 <= i < deliveries.len() ==> (#[trigger] deliveries[i]).sender == listing[i].1
                    && deliveries[i].reply == Err::<S2cMessage, ClientError>(err)
        };
    let j = choose|j: int| 0 <= j < listing.len() && (#[trigger] listing[j]).0@ == correlation_id;
    assert(deliveries[j].sender == open[correlation_id]);
    assert(handed_over(open[correlation_id], Err(err), sent[j]));
    let id = listing[i].0@;
    assert(deliveries[i].sender == open[id]);
    assert(open.contains_key(id) && handed_over(open[id], Err(err), sent[i]));
}

} // verus!
