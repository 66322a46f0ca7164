//! A bounded multi-consumer broadcast hub.
//!
//! Publications go into a ring buffer of fixed capacity and are numbered by a
//! write sequence. A subscription is a read position in that sequence. When a
//! subscriber falls so far behind that the items it has not read were
//! overwritten, its next receive reports how many it missed and moves it to
//! the oldest item still held. Publishing never waits for a subscriber.
use vstd::prelude::*;

verus! {

/// A value handed to every subscriber.
#[derive(Debug, PartialEq, Eq)]
pub enum Publication {
    /// The latest body of the watched artifact.
    Content(String),
    /// The pipeline should stop producing further work.
    Done,
}

impl Clone for Publication {
    fn clone(&self) -> (r: Publication)
        ensures
            r == *self,
    {
        match self {
            Publication::Content(s) => Publication::Content(s.clone()),
            Publication::Done => Publication::Done,
        }
    }
}

/// What a receive hands back.
#[derive(Debug, PartialEq, Eq)]
pub enum Received {
    /// The next publication in order.
    Item(Publication),
    /// This many publications were overwritten before they were read.
    Lagged(u64),
    /// Nothing new has been published.
    Empty,
    /// The hub was closed.
    Closed,
}

/// The abstract state of a hub: every publication so far, in order.
pub struct HubView {
    pub log: Seq<Publication>,
    pub capacity: nat,
    pub closed: bool,
}

impl HubView {
    /// Sequence number of the oldest publication the buffer still holds.
    pub open spec fn oldest(self) -> nat {
        if self.log.len() > self.capacity {
            (self.log.len() - self.capacity) as nat
        } else {
            0
        }
    }

    /// The state after publishing `p` on an open hub.
    pub open spec fn published(self, p: Publication) -> HubView {
        HubView { log: self.log.push(p), ..self }
    }

    /// The state after publishing all of `items`, in order, on an open hub.
    pub open spec fn published_all(self, items: Seq<Publication>) -> HubView {
        HubView { log: self.log + items, ..self }
    }

    /// What a receive at read position `cursor` returns, and where the
    /// position moves.
    pub open spec fn receive(self, cursor: nat) -> (Received, nat) {
        if self.closed {
            (Received::Closed, cursor)
        } else if cursor < self.oldest() {
            (Received::Lagged((self.oldest() - cursor) as u64), self.oldest())
        } else if cursor < self.log.len() {
            (Received::Item(self.log[cursor as int]), cursor + 1)
        } else {
            (Received::Empty, cursor)
        }
    }
}

/// A subscriber's read position.
pub struct Subscription {
    next: u64,
}

impl View for Subscription {
    type V = nat;

    closed spec fn view(&self) -> nat {
        self.next as nat
    }
}

/// A bounded broadcast hub with ring-buffer overwrite semantics.
pub struct Hub {
    slots: Vec<Option<Publication>>,
    next_seq: u64,
    closed: bool,
    log: Ghost<Seq<Publication>>,
}

impl View for Hub {
    type V = HubView;

    closed spec fn view(&self) -> HubView {
        HubView { log: self.log@, capacity: self.slots@.len(), closed: self.closed }
    }
}

impl Hub {
    /// The buffer is non-empty and holds, at slot `s % capacity`, publication
    /// `s` for every `s` not yet overwritten.
    pub closed spec fn wf(self) -> bool {
        &&& self.slots@.len() > 0
        &&& self.next_seq == self.log@.len()
        &&& forall|s: int|
            self@.oldest() <= s < self.log@.len() ==> #[trigger] self.slots@[s % self.slots@.len() as int]
                == Some(self.log@[s])
    }

    /// An open, empty hub holding up to `capacity` unread publications.
    pub fn new(capacity: usize) -> (r: Hub)
        requires
            capacity > 0,
        ensures
            r.wf(),
            r@ == (HubView { log: Seq::empty(), capacity: capacity as nat, closed: false }),
    {
        let mut slots: Vec<Option<Publication>> = Vec::new();
        let mut i: usize = 0;
        while i < capacity
            invariant
                i <= capacity,
                slots@.len() == i,
            decreases capacity - i,
        {
            slots.push(None);
            i = i + 1;
        }
        Hub { slots, next_seq: 0, closed: false, log: Ghost(Seq::empty()) }
    }

    /// How many publications were accepted so far.
    pub fn published_count(&self) -> (r: u64)
        requires
            self.wf(),
        ensures
            r == self@.log.len(),
    {
        self.next_seq
    }

    /// The number of publications the buffer holds; never zero.
    pub fn capacity(&self) -> (r: usize)
        requires
            self.wf(),
        ensures
            r == self@.capacity,
            r > 0,
    {
        self.slots.len()
    }

    pub fn is_closed(&self) -> (r: bool)
        ensures
            r == self@.closed,
    {
        self.closed
    }

    /// A subscription that starts at the next publication after now.
    pub fn subscribe(&self) -> (r: Subscription)
        requires
            self.wf(),
        ensures
            r@ == self@.log.len(),
    {
        Subscription { next: self.next_seq }
    }

    /// Stops the hub: every later receive reports `Closed` and every later
    /// publish is refused.
    pub fn close(&mut self)
        requires
            old(self).wf(),
        ensures
            final(self).wf(),
            final(self)@ == (HubView { closed: true, ..old(self)@ }),
    {
        self.closed = true;
    }

    /// Appends `p` for every subscriber, overwriting the oldest item once the
    /// buffer is full. Never waits. Fails, handing `p` back, only when the hub
    /// is closed.
    pub fn publish(&mut self, p: Publication) -> (r: Result<(), Publication>)
        requires
            old(self).wf(),
            old(self)@.log.len() < u64::MAX,
        ensures
            final(self).wf(),
            old(self)@.closed ==> r == Err::<(), Publication>(p) && final(self)@ == old(self)@,
            !old(self)@.closed ==> r is Ok && final(self)@ == old(self)@.published(p),
    {
        if self.closed {
            return Err(p);
        }
        let cap = self.slots.len();
        let idx = (self.next_seq % (cap as u64)) as usize;
        let ghost old_log = self.log@;
        let ghost old_slots = self.slots@;
        self.slots.set(idx, Some(p));
        self.next_seq = self.next_seq + 1;
        self.log = Ghost(old_log.push(p));
        proof {
            let n = old_log.len() as int;
            let c = cap as int;
            assert forall|s: int| self@.oldest() <= s < self.log@.len() implies #[trigger] self.slots@[s % c]
                == Some(self.log@[s]) by {
                if s < n {
                    assert(s % c != n % c) by {
                        assert(n - c < s < n);
                        lemma_mod_distinct(s, n, c);
                    }
                    assert(old_slots[s % c] == Some(old_log[s]));
                }
            }
        }
        Ok(())
    }

    /// The next item for `sub`, or the number of items it missed, or that
    /// nothing is new, or that the hub is closed.
    pub fn receive(&self, sub: &mut Subscription) -> (r: Received)
        requires
            self.wf(),
        ensures
            (r, final(sub)@) == self@.receive(old(sub)@),
    {
        if self.closed {
            return Received::Closed;
        }
        let cap = self.slots.len() as u64;
        let oldest = if self.next_seq > cap {
            self.next_seq - cap
        } else {
            0
        };
        if sub.next < oldest {
            let missed = oldest - sub.next;
            sub.next = oldest;
            Received::Lagged(missed)
        } else if sub.next < self.next_seq {
            let idx = (sub.next % cap) as usize;
            proof {
                let s = sub.next as int;
                assert(self.slots@[s % (cap as int)] == Some(self.log@[s]));
            }
            match &self.slots[idx] {
                Some(p) => {
                    sub.next = sub.next + 1;
                    Received::Item(p.clone())
                },
                None => Received::Empty,
            }
        } else {
            Received::Empty
        }
    }
}

/// Two positions less than `c` apart that are not equal fall in different
/// slots of a ring of `c` slots.
proof fn lemma_mod_distinct(s: int, n: int, c: int)
    requires
        c > 0,
        0 <= s < n,
        n - c < s,
    ensures
        s % c != n % c,
{
    vstd::arithmetic::div_mod::lemma_fundamental_div_mod(s, c);
    vstd::arithmetic::div_mod::lemma_fundamental_div_mod(n, c);
    if s % c == n % c {
        assert(c * (n / c) - c * (s / c) == n - s);
        vstd::arithmetic::mul::lemma_mul_is_distributive_sub(c, n / c, s / c);
        assert(c * (n / c - s / c) == n - s);
        if n / c - s / c <= 0 {
            vstd::arithmetic::mul::lemma_mul_inequality(n / c - s / c, 0, c);
        } else {
            vstd::arithmetic::mul::lemma_mul_inequality(1, n / c - s / c, c);
        }
    }
}

/// A subscriber that was level with the hub when `items` were published, and
/// read none of them, is told on its next receive that exactly
/// `items.len() - capacity` were dropped, and is moved to the oldest one still
/// held; the receive after that returns that item.
pub proof fn lemma_lag_after_overflow(v: HubView, cursor: nat, items: Seq<Publication>)
    requires
        v.capacity > 0,
        !v.closed,
        cursor == v.log.len(),
        items.len() > v.capacity,
        v.log.len() + items.len() <= u64::MAX,
    ensures
        ({
            let after = v.published_all(items);
            let skipped = (items.len() - v.capacity) as nat;
            &&& after.receive(cursor) == (Received::Lagged(skipped as u64), cursor + skipped)
            &&& after.receive(cursor + skipped) == (
                Received::Item(items[skipped as int]),
                cursor + skipped + 1,
            )
        }),
{
    let after = v.published_all(items);
    let skipped = (items.len() - v.capacity) as nat;
    assert(after.log[(cursor + skipped) as int] == items[skipped as int]);
}

/// However many items are published, what a subscriber can still read is
/// never more than the capacity: older items were overwritten and show up
/// only as a lag count.
pub proof fn lemma_backlog_bounded(v: HubView, cursor: nat)
    requires
        cursor <= v.log.len(),
    ensures
        v.log.len() - (if cursor > v.oldest() { cursor } else { v.oldest() }) <= v.capacity,
{
}

/// Publishing items one at a time is publishing them all at once.
pub proof fn lemma_publish_in_turn(v: HubView, items: Seq<Publication>, p: Publication)
    ensures
        v.published_all(items).published(p) == v.published_all(items.push(p)),
{
    assert(v.log + items.push(p) =~= (v.log + items).push(p));
}

} // verus!
