//! A single-slot broadcast channel: the publisher overwrites the slot, and each
//! subscriber sees the freshest value at most once.
//!
//! The channel itself never suspends anybody. `try_wait` says whether a
//! subscriber has something new to take; a caller that gets `None` stays
//! suspended until the next publish and then asks again.

use vstd::prelude::*;

verus! {

/// A CO2-equivalent concentration in parts per million.
pub type Reading = u16;

/// How many subscriptions the firmware's CO2 channel admits.
pub const CO2_CONSUMERS: usize = 1;

/// The mathematical content of a channel.
pub struct ChannelView {
    /// The value published last, if any was published.
    pub slot: Option<Reading>,
    /// How many times a value was published.
    pub generation: nat,
    /// How many subscriptions were handed out.
    pub subscribers: nat,
    /// How many subscriptions may be handed out at most.
    pub capacity: nat,
}

impl ChannelView {
    /// The slot is filled exactly when something was published, and no more
    /// subscriptions exist than the channel admits.
    pub open spec fn wf(self) -> bool {
        &&& self.subscribers <= self.capacity
        &&& (self.generation == 0 <==> self.slot is None)
    }

    /// A channel on which nothing has happened yet.
    pub open spec fn fresh(capacity: nat) -> ChannelView {
        ChannelView { slot: None, generation: 0, subscribers: 0, capacity }
    }

    /// The channel after `value` was published.
    pub open spec fn publish(self, value: Reading) -> ChannelView {
        ChannelView { slot: Some(value), generation: self.generation + 1, ..self }
    }

    /// The channel after each of `values` was published, first to last.
    pub open spec fn publish_all(self, values: Seq<Reading>) -> ChannelView
        decreases values.len(),
    {
        if values.len() == 0 {
            self
        } else {
            self.publish_all(values.drop_last()).publish(values.last())
        }
    }

    /// Whether one more subscription can be handed out.
    pub open spec fn has_room(self) -> bool {
        self.subscribers < self.capacity
    }

    /// The channel after a request to subscribe.
    pub open spec fn subscribe(self) -> ChannelView {
        if self.has_room() {
            ChannelView { subscribers: self.subscribers + 1, ..self }
        } else {
            self
        }
    }

    /// The channel after `requests` requests to subscribe in a row.
    pub open spec fn subscribe_times(self, requests: nat) -> ChannelView
        decreases requests,
    {
        if requests == 0 {
            self
        } else {
            self.subscribe_times((requests - 1) as nat).subscribe()
        }
    }

    /// Whether a subscriber that has seen generation `seen` has news to take.
    pub open spec fn has_news(self, seen: nat) -> bool {
        self.generation > seen
    }

    /// What a subscriber that has seen generation `seen` receives now: the
    /// freshest value if it is newer than that, otherwise nothing.
    pub open spec fn wait(self, seen: nat) -> Option<Reading> {
        if self.has_news(seen) {
            self.slot
        } else {
            None
        }
    }

    /// The generation that a subscriber has seen after asking.
    pub open spec fn seen_after_wait(self, seen: nat) -> nat {
        if self.has_news(seen) {
            self.generation
        } else {
            seen
        }
    }
}

/// Latest-value broadcast channel with a fixed number of subscriptions.
#[derive(Debug)]
pub struct BroadcastChannel {
    slot: Option<Reading>,
    generation: u64,
    subscribers: usize,
    capacity: usize,
}

/// One subscriber's handle: it remembers the generation it has seen last.
#[derive(Debug, PartialEq, Eq)]
pub struct Subscription {
    seen: u64,
}

impl View for Subscription {
    type V = nat;

    closed spec fn view(&self) -> nat {
        self.seen as nat
    }
}

impl View for BroadcastChannel {
    type V = ChannelView;

    closed spec fn view(&self) -> ChannelView {
        ChannelView {
            slot: self.slot,
            generation: self.generation as nat,
            subscribers: self.subscribers as nat,
            capacity: self.capacity as nat,
        }
    }
}

impl Subscription {
    /// The generation seen last; 0 for a subscription that has seen nothing.
    pub fn seen(&self) -> (seen: u64)
        ensures
            seen == self@,
    {
        self.seen
    }
}

impl BroadcastChannel {
    #[verifier::type_invariant]
    spec fn inv(self) -> bool {
        self@.wf()
    }

    /// A channel that admits `capacity` subscriptions and holds no value.
    pub fn new(capacity: usize) -> (channel: Self)
        ensures
            channel@ == ChannelView::fresh(capacity as nat),
    {
        BroadcastChannel { slot: None, generation: 0, subscribers: 0, capacity }
    }

    /// Whether `publish` may be called: the generation counter has not reached
    /// the end of its range.
    pub fn can_publish(&self) -> (yes: bool)
        ensures
            yes <==> self@.generation < u64::MAX,
    {
        self.generation < u64::MAX
    }

    /// Overwrites the slot with `value` and starts a new generation.
    ///
    /// Whatever the slot held before is gone. Nothing is queued and the
    /// publisher never has to wait for a subscriber.
    pub fn publish(&mut self, value: Reading)
        requires
            old(self)@.generation < u64::MAX,
        ensures
            final(self)@ == old(self)@.publish(value),
            final(self)@.wf(),
    {
        proof {
            use_type_invariant(&*self);
        }
        *self = BroadcastChannel {
            slot: Some(value),
            generation: self.generation + 1,
            subscribers: self.subscribers,
            capacity: self.capacity,
        };
    }

    /// Hands out a new subscription while fewer than `capacity` exist, and
    /// nothing once the limit is reached.
    ///
    /// A new subscription has seen no generation, so a value that is already
    /// in the slot counts as news for it.
    pub fn subscribe(&mut self) -> (handle: Option<Subscription>)
        ensures
            final(self)@ == old(self)@.subscribe(),
            final(self)@.wf(),
            handle is Some <==> old(self)@.has_room(),
            handle matches Some(subscription) ==> subscription@ == 0,
    {
        proof {
            use_type_invariant(&*self);
        }
        if self.subscribers < self.capacity {
            self.subscribers = self.subscribers + 1;
            Some(Subscription { seen: 0 })
        } else {
            None
        }
    }

    /// Takes the freshest value for `subscription` if it is newer than what the
    /// subscription has seen, and marks it as seen.
    ///
    /// `None` means that the subscriber has to stay suspended: nothing was
    /// published since it last took a value.
    pub fn try_wait(&self, subscription: &mut Subscription) -> (news: Option<Reading>)
        ensures
            self@.wf(),
            news == self@.wait(old(subscription)@),
            final(subscription)@ == self@.seen_after_wait(old(subscription)@),
            news is Some <==> self@.has_news(old(subscription)@),
    {
        proof {
            use_type_invariant(self);
        }
        if self.generation > subscription.seen {
            subscription.seen = self.generation;
            self.slot
        } else {
            None
        }
    }

    /// The number of values published so far.
    pub fn generation(&self) -> (generation: u64)
        ensures
            generation == self@.generation,
    {
        self.generation
    }

    /// The value published last, whether or not anybody has seen it.
    pub fn latest(&self) -> (value: Option<Reading>)
        ensures
            value == self@.slot,
    {
        self.slot
    }

    /// The number of subscriptions handed out.
    pub fn subscribers(&self) -> (count: usize)
        ensures
            count == self@.subscribers,
    {
        self.subscribers
    }

    /// The largest number of subscriptions that the channel admits.
    pub fn capacity(&self) -> (capacity: usize)
        ensures
            capacity == self@.capacity,
    {
        self.capacity
    }
}

/// Coalescing, latest wins: after any run of one or more publishes with no
/// wait in between, a subscriber that was not ahead of the channel receives
/// exactly the value published last. Its marker then stands at the channel's
/// generation, so asking again yields nothing: the values published before
/// the last one are gone for good.
pub proof fn lemma_latest_wins(channel: ChannelView, values: Seq<Reading>, seen: nat)
    requires
        values.len() > 0,
        seen <= channel.generation,
    ensures
        channel.publish_all(values).generation == channel.generation + values.len(),
        channel.publish_all(values).wait(seen) == Some(values.last()),
        channel.publish_all(values).seen_after_wait(seen) == channel.generation + values.len(),
        channel.publish_all(values).wait(channel.publish_all(values).seen_after_wait(seen))
            is None,
{
    lemma_publish_all_counts(channel, values);
}

/// Publishing adds one generation per value and touches nothing but the slot
/// and the generation.
pub proof fn lemma_publish_all_counts(channel: ChannelView, values: Seq<Reading>)
    ensures
        channel.publish_all(values).generation == channel.generation + values.len(),
        channel.publish_all(values).subscribers == channel.subscribers,
        channel.publish_all(values).capacity == channel.capacity,
        values.len() > 0 ==> channel.publish_all(values).slot == Some(values.last()),
        values.len() == 0 ==> channel.publish_all(values) == channel,
        channel.wf() ==> channel.publish_all(values).wf(),
    decreases values.len(),
{
    if values.len() > 0 {
        lemma_publish_all_counts(channel, values.drop_last());
    }
}

/// A subscriber's marker never moves back, and it never passes the channel's
/// generation unless it was already ahead of it.
pub proof fn lemma_marker_is_monotonic(channel: ChannelView, seen: nat)
    ensures
        channel.seen_after_wait(seen) >= seen,
        seen <= channel.generation ==> channel.seen_after_wait(seen) == channel.generation,
{
}

/// On a channel for `capacity` subscribers on which nobody has subscribed yet,
/// the first `capacity` requests each get a handle and every later one gets
/// none and changes nothing.
pub proof fn lemma_subscriptions_are_limited(capacity: nat, requests: nat)
    ensures
        ChannelView::fresh(capacity).subscribe_times(requests).wf(),
        ChannelView::fresh(capacity).subscribe_times(requests).capacity == capacity,
        ChannelView::fresh(capacity).subscribe_times(requests).subscribers == if requests
            <= capacity {
            requests
        } else {
            capacity
        },
        ChannelView::fresh(capacity).subscribe_times(requests).has_room() <==> requests < capacity,
        requests >= capacity ==> ChannelView::fresh(capacity).subscribe_times(requests).subscribe()
            == ChannelView::fresh(capacity).subscribe_times(requests),
    decreases requests,
{
    let fresh = ChannelView::fresh(capacity);
    if requests > 0 {
        lemma_subscriptions_are_limited(capacity, (requests - 1) as nat);
        assert(fresh.subscribe_times(requests) == fresh.subscribe_times(
            (requests - 1) as nat,
        ).subscribe());
    }
}

/// Asks `channel` for a subscription, as the consumer of readings does once.
pub fn get_receiver(channel: &mut BroadcastChannel) -> (handle: Option<Subscription>)
    ensures
        final(channel)@ == old(channel)@.subscribe(),
        final(channel)@.wf(),
        handle is Some <==> old(channel)@.has_room(),
        handle matches Some(subscription) ==> subscription@ == 0,
{
    channel.subscribe()
}

} // verus!
