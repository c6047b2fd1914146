//! The event bus: an in-memory multi-producer, multi-consumer broadcast.
//!
//! `publish` fans an event out to every currently registered subscriber's
//! bounded queue and labels it with a monotonically increasing sequence
//! number. A subscriber that falls behind loses the oldest unread events,
//! never the newest, and its next read reports how many were missed.
//! Publishing to a bus with no subscribers is a no-op, never an error.

use vstd::prelude::*;

verus! {

/// An immutable record of one resource mutation, as broadcast to subscribers.
#[derive(Debug)]
pub enum DomainEvent {
    Created { id: i32, title: String, content: String },
    Updated { id: i32, title: String, content: String },
    Deleted { id: i32 },
}

impl DomainEvent {
    /// An equal copy; the bus hands one to each subscriber.
    pub fn duplicate(&self) -> (r: Self)
        ensures
            r == *self,
    {
        match self {
            DomainEvent::Created { id, title, content } => DomainEvent::Created {
                id: *id,
                title: title.clone(),
                content: content.clone(),
            },
            DomainEvent::Updated { id, title, content } => DomainEvent::Updated {
                id: *id,
                title: title.clone(),
                content: content.clone(),
            },
            DomainEvent::Deleted { id } => DomainEvent::Deleted { id: *id },
        }
    }
}

/// An event as labeled by the bus: `seq` is its position in publication
/// order, so a client can tell where a resumed stream left off.
#[derive(Debug)]
pub struct LabeledEvent {
    pub seq: u64,
    pub event: DomainEvent,
}

/// One registered consumer: a handle id and a bounded receive queue, oldest
/// event first. The ghost fields carry what the queue alone cannot: where in
/// the publication history this subscriber joined (`start`), what it has
/// already read (`read`), and how many events it has lost to overflow
/// (`lost`); `missed` counts the losses not yet reported to the reader.
pub struct Subscriber {
    pub id: u64,
    pub queue: Vec<LabeledEvent>,
    pub missed: u64,
    pub start: Ghost<nat>,
    pub read: Ghost<Seq<LabeledEvent>>,
    pub lost: Ghost<nat>,
}

impl Subscriber {
    /// The next unread position in the bus history: everything before it was
    /// read or lost.
    pub open spec fn cursor(&self) -> nat {
        self.start@ + self.read@.len() + self.lost@
    }

    /// The queue is exactly the tail of the publication history that this
    /// subscriber has neither read nor lost; reads before the first loss are
    /// the history itself, in order; losses beyond the queue's capacity are
    /// impossible, and unreported losses mean the queue is full.
    pub open spec fn wf(&self, history: Seq<LabeledEvent>, capacity: usize) -> bool {
        &&& self.cursor() + self.queue@.len() == history.len()
        &&& self.queue@ == history.subrange(self.cursor() as int, history.len() as int)
        &&& self.queue@.len() <= capacity
        &&& self.missed as nat <= self.lost@
        &&& (self.lost@ == 0 ==> self.read@ == history.subrange(
            self.start@ as int,
            self.start@ + self.read@.len() as int,
        ))
        &&& (self.missed > 0 ==> self.queue@.len() == capacity)
    }
}

/// What one `publish` of `lbl` does to one subscriber: the event is appended
/// to its queue; if the queue was full, the oldest event is dropped and the
/// loss is counted. Nothing else about the subscriber changes.
pub open spec fn publish_step(o: Subscriber, n: Subscriber, lbl: LabeledEvent, capacity: usize) -> bool {
    &&& n.id == o.id
    &&& n.start == o.start
    &&& n.read == o.read
    &&& if o.queue@.len() < capacity {
        &&& n.queue@ == o.queue@.push(lbl)
        &&& n.missed == o.missed
        &&& n.lost == o.lost
    } else {
        &&& n.queue@ == o.queue@.drop_first().push(lbl)
        &&& n.missed == o.missed + 1
        &&& n.lost@ == o.lost@ + 1
    }
}

/// What a read from a subscriber's queue yields: the oldest queued event, a
/// lag report (how many events were missed since the last read), nothing, or
/// `Gone` for a handle that is no longer registered.
#[derive(Debug)]
pub enum RecvOutcome {
    Event(LabeledEvent),
    Lagged(u64),
    Empty,
    Gone,
}

/// The broadcast bus: the set of currently registered subscribers and the
/// sequence counter that labels events. Shared by all producers and
/// consumers; constructed once at startup.
pub struct EventBus {
    pub capacity: usize,
    pub next_seq: u64,
    pub next_subscriber: u64,
    pub subscribers: Vec<Subscriber>,
    pub history: Ghost<Seq<LabeledEvent>>,
}

impl EventBus {
    /// A handle is registered.
    pub open spec fn spec_has_subscriber(&self, id: u64) -> bool {
        exists|i: int| 0 <= i < self.subscribers@.len() && self.subscribers@[i].id == id
    }

    /// The position of a registered handle.
    pub open spec fn spec_index_of(&self, id: u64) -> int {
        choose|i: int| 0 <= i < self.subscribers@.len() && self.subscribers@[i].id == id
    }

    /// The registered subscriber with a handle.
    pub open spec fn spec_subscriber(&self, id: u64) -> Subscriber {
        self.subscribers@[self.spec_index_of(id)]
    }

    /// Bus well-formedness: events are labeled by their position, every
    /// subscriber's queue is a faithful tail of the history, and handles are
    /// unique and below the handle counter.
    pub open spec fn wf(&self) -> bool {
        &&& self.capacity >= 1
        &&& self.history@.len() == self.next_seq as nat
        &&& (forall|i: int|
            0 <= i < self.history@.len() ==> #[trigger] self.history@[i].seq == i)
        &&& (forall|i: int|
            0 <= i < self.subscribers@.len() ==> #[trigger] self.subscribers@[i].wf(
                self.history@,
                self.capacity,
            ))
        &&& (forall|i: int, j: int|
            0 <= i < j < self.subscribers@.len() ==> self.subscribers@[i].id
                != self.subscribers@[j].id)
        &&& (forall|i: int|
            0 <= i < self.subscribers@.len() ==> #[trigger] self.subscribers@[i].id
                < self.next_subscriber)
    }

    /// A fresh bus: no subscribers, no history, queues bounded by `capacity`.
    pub fn new(capacity: usize) -> (bus: EventBus)
        requires
            capacity >= 1,
        ensures
            bus.wf(),
            bus.capacity == capacity,
            bus.next_seq == 0,
            bus.next_subscriber == 0,
            bus.history@ == Seq::<LabeledEvent>::empty(),
            bus.subscribers@ == Seq::<Subscriber>::empty(),
    {
        let bus = EventBus {
            capacity,
            next_seq: 0,
            next_subscriber: 0,
            subscribers: Vec::new(),
            history: Ghost(Seq::empty()),
        };
        proof {
            assert(bus.history@ =~= Seq::<LabeledEvent>::empty());
        }
        bus
    }

    /// How many subscribers are currently registered.
    pub fn subscriber_count(&self) -> (n: usize)
        ensures
            n == self.subscribers@.len(),
    {
        self.subscribers.len()
    }

    /// Registers a new consumer and returns its handle. Its queue starts
    /// empty: it will receive only events published after registration, with
    /// no historical replay.
    pub fn subscribe(&mut self) -> (id: u64)
        requires
            old(self).wf(),
            old(self).next_subscriber < u64::MAX,
        ensures
            final(self).wf(),
            final(self).capacity == old(self).capacity,
            final(self).next_seq == old(self).next_seq,
            final(self).history@ == old(self).history@,
            !old(self).spec_has_subscriber(id),
            final(self).spec_has_subscriber(id),
            final(self).subscribers@.len() == old(self).subscribers@.len() + 1,
            final(self).subscribers@.subrange(0, old(self).subscribers@.len() as int) == old(
                self,
            ).subscribers@,
            ({
                let s = final(self).subscribers@.last();
                &&& s.id == id
                &&& s.queue@ == Seq::<LabeledEvent>::empty()
                &&& s.missed == 0
                &&& s.start@ == final(self).history@.len()
                &&& s.read@ == Seq::<LabeledEvent>::empty()
                &&& s.lost@ == 0
            }),
    {
        let id = self.next_subscriber;
        self.next_subscriber = self.next_subscriber + 1;
        let sub = Subscriber {
            id,
            queue: Vec::new(),
            missed: 0,
            start: Ghost(self.history@.len()),
            read: Ghost(Seq::empty()),
            lost: Ghost(0),
        };
        self.subscribers.push(sub);
        proof {
            let s = self.subscribers@.last();
            assert(s.queue@ =~= Seq::<LabeledEvent>::empty());
            assert(s.read@ =~= Seq::<LabeledEvent>::empty());
            assert(s.queue@ =~= self.history@.subrange(
                s.cursor() as int,
                self.history@.len() as int,
            ));
            assert(self.subscribers@.subrange(0, old(self).subscribers@.len() as int) =~= old(
                self,
            ).subscribers@);
        }
        id
    }

    /// Fans one event out to every registered subscriber, labeling it with
    /// the next sequence number. A full queue drops its oldest event, never
    /// the newest; the publisher is never blocked and never fails, also when
    /// nobody is subscribed.
    pub fn publish(&mut self, event: DomainEvent)
        requires
            old(self).wf(),
            old(self).next_seq < u64::MAX,
        ensures
            final(self).wf(),
            final(self).capacity == old(self).capacity,
            final(self).next_subscriber == old(self).next_subscriber,
            final(self).next_seq == old(self).next_seq + 1,
            final(self).history@ == old(self).history@.push(
                LabeledEvent { seq: old(self).next_seq, event },
            ),
            final(self).subscribers@.len() == old(self).subscribers@.len(),
            forall|s: u64|
                #[trigger] final(self).spec_has_subscriber(s) == old(self).spec_has_subscriber(s),
            forall|i: int|
                0 <= i < final(self).subscribers@.len() ==> publish_step(
                    old(self).subscribers@[i],
                    #[trigger] final(self).subscribers@[i],
                    LabeledEvent { seq: old(self).next_seq, event },
                    old(self).capacity,
                ),
    {
        let ghost lbl = LabeledEvent { seq: self.next_seq, event };
        let seq_label = self.next_seq;
        let mut pending: Vec<Subscriber> = Vec::new();
        core::mem::swap(&mut self.subscribers, &mut pending);
        let mut updated: Vec<Subscriber> = Vec::new();
        while pending.len() > 0
            invariant
                self.capacity == old(self).capacity,
                old(self).wf(),
                seq_label == old(self).next_seq,
                lbl == (LabeledEvent { seq: old(self).next_seq, event }),
                updated@.len() + pending@.len() == old(self).subscribers@.len(),
                pending@ == old(self).subscribers@.subrange(
                    updated@.len() as int,
                    old(self).subscribers@.len() as int,
                ),
                forall|k: int|
                    0 <= k < updated@.len() ==> publish_step(
                        old(self).subscribers@[k],
                        #[trigger] updated@[k],
                        lbl,
                        old(self).capacity,
                    ),
            decreases pending@.len(),
        {
            proof {
                assert(pending@[0] == old(self).subscribers@[updated@.len() as int]);
                assert(old(self).subscribers@[updated@.len() as int].wf(
                    old(self).history@,
                    old(self).capacity,
                ));
            }
            let mut sub = pending.remove(0);
            if sub.queue.len() == self.capacity {
                sub.queue.remove(0);
                sub.missed = sub.missed + 1;
                sub.lost = Ghost(sub.lost@ + 1);
            }
            sub.queue.push(LabeledEvent { seq: seq_label, event: event.duplicate() });
            updated.push(sub);
            proof {
                assert(pending@ =~= old(self).subscribers@.subrange(
                    updated@.len() as int,
                    old(self).subscribers@.len() as int,
                ));
            }
        }
        self.subscribers = updated;
        self.next_seq = self.next_seq + 1;
        proof {
            self.history@ = self.history@.push(lbl);
        }
        proof {
            let h0 = old(self).history@;
            let h1 = self.history@;
            assert forall|i: int| 0 <= i < self.subscribers@.len() implies #[trigger] self.subscribers@[i].wf(
                h1,
                self.capacity,
            ) by {
                let o = old(self).subscribers@[i];
                let n = self.subscribers@[i];
                assert(publish_step(o, n, lbl, old(self).capacity));
                assert(o.wf(h0, old(self).capacity));
                if o.queue@.len() < self.capacity {
                    assert(n.queue@ =~= h1.subrange(n.cursor() as int, h1.len() as int));
                } else {
                    assert(o.queue@.drop_first() =~= h0.subrange(
                        o.cursor() as int + 1,
                        h0.len() as int,
                    ));
                    assert(n.queue@ =~= h1.subrange(n.cursor() as int, h1.len() as int));
                }
                if n.lost@ == 0 {
                    assert(n.read@ =~= h1.subrange(n.start@ as int, n.start@ + n.read@.len() as int));
                }
            }
            assert forall|s: u64|
                #[trigger] self.spec_has_subscriber(s) == old(self).spec_has_subscriber(s) by {
                assert(forall|i: int|
                    0 <= i < self.subscribers@.len() ==> #[trigger] self.subscribers@[i].id == old(
                        self,
                    ).subscribers@[i].id);
                if old(self).spec_has_subscriber(s) {
                    let i = old(self).spec_index_of(s);
                    assert(self.subscribers@[i].id == s);
                }
                if self.spec_has_subscriber(s) {
                    let i = self.spec_index_of(s);
                    assert(old(self).subscribers@[i].id == s);
                }
            }
        }
    }

    /// The position of a handle in the subscriber list, if registered.
    fn find_subscriber(&self, id: u64) -> (r: Option<usize>)
        ensures
            match r {
                Some(i) => i < self.subscribers@.len() && self.subscribers@[i as int].id == id
                    && self.spec_has_subscriber(id),
                None => !self.spec_has_subscriber(id),
            },
    {
        let n = self.subscribers.len();
        let mut i: usize = 0;
        while i < n
            invariant
                0 <= i <= n == self.subscribers@.len(),
                forall|k: int| 0 <= k < i ==> #[trigger] self.subscribers@[k].id != id,
            decreases n - i,
        {
            if self.subscribers[i].id == id {
                return Some(i);
            }
            i = i + 1;
        }
        None
    }

    /// Reads the next item for a subscriber: a pending lag report first, then
    /// the oldest queued event, `Empty` for an empty queue, `Gone` for an
    /// unregistered handle. Only the addressed subscriber changes.
    pub fn recv(&mut self, id: u64) -> (r: RecvOutcome)
        requires
            old(self).wf(),
        ensures
            final(self).wf(),
            final(self).capacity == old(self).capacity,
            final(self).next_seq == old(self).next_seq,
            final(self).next_subscriber == old(self).next_subscriber,
            final(self).history@ == old(self).history@,
            final(self).spec_has_subscriber(id) == old(self).spec_has_subscriber(id),
            !old(self).spec_has_subscriber(id) ==> r == RecvOutcome::Gone && *final(self) == *old(self),
            old(self).spec_has_subscriber(id) ==> ({
                let at = old(self).spec_index_of(id);
                let o = old(self).subscribers@[at];
                let n = final(self).subscribers@[at];
                &&& final(self).subscribers@ == old(self).subscribers@.update(at, n)
                &&& n.id == o.id
                &&& n.start == o.start
                &&& if o.missed > 0 {
                    &&& r == RecvOutcome::Lagged(o.missed)
                    &&& n.queue@ == o.queue@
                    &&& n.missed == 0
                    &&& n.read == o.read
                    &&& n.lost == o.lost
                } else if o.queue@.len() == 0 {
                    &&& r == RecvOutcome::Empty
                    &&& n == o
                } else {
                    &&& r == RecvOutcome::Event(o.queue@[0])
                    &&& n.queue@ == o.queue@.drop_first()
                    &&& n.missed == 0
                    &&& n.read@ == o.read@.push(o.queue@[0])
                    &&& n.lost == o.lost
                }
            }),
    {
        let at = match self.find_subscriber(id) {
            Some(at) => at,
            None => {
                return RecvOutcome::Gone;
            },
        };
        proof {
            let chosen = old(self).spec_index_of(id);
            assert(old(self).subscribers@[chosen].id == id);
            if chosen != at {
                assert(false);
            }
        }
        let mut sub = self.subscribers.remove(at);
        let r: RecvOutcome;
        if sub.missed > 0 {
            let n = sub.missed;
            sub.missed = 0;
            r = RecvOutcome::Lagged(n);
        } else if sub.queue.len() == 0 {
            r = RecvOutcome::Empty;
        } else {
            let ev = sub.queue.remove(0);
            proof {
                sub.read@ = sub.read@.push(ev);
            }
            r = RecvOutcome::Event(ev);
        }
        self.subscribers.insert(at, sub);
        proof {
            assert(self.subscribers@ =~= old(self).subscribers@.update(at as int, sub));
            assert(self.subscribers@[at as int].id == id);
            let h = self.history@;
            let o = old(self).subscribers@[at as int];
            assert(o.wf(h, self.capacity));
            if o.missed == 0 && o.queue@.len() > 0 {
                assert(sub.queue@ =~= h.subrange(sub.cursor() as int, h.len() as int));
                if sub.lost@ == 0 {
                    assert(o.queue@[0] == h[o.cursor() as int]);
                    assert(sub.read@ =~= h.subrange(
                        sub.start@ as int,
                        sub.start@ + sub.read@.len() as int,
                    ));
                }
            }
            assert forall|i: int| 0 <= i < self.subscribers@.len() implies #[trigger] self.subscribers@[i].wf(
                h,
                self.capacity,
            ) by {
                if i != at {
                    assert(self.subscribers@[i] == old(self).subscribers@[i]);
                }
            }
        }
        r
    }

    /// Unregisters a handle: its queue and registration are removed; the
    /// other subscribers and the history are untouched. Returns whether the
    /// handle was registered; asking again, or publishing afterwards, is
    /// harmless.
    pub fn unsubscribe(&mut self, id: u64) -> (removed: bool)
        requires
            old(self).wf(),
        ensures
            final(self).wf(),
            final(self).capacity == old(self).capacity,
            final(self).next_seq == old(self).next_seq,
            final(self).next_subscriber == old(self).next_subscriber,
            final(self).history@ == old(self).history@,
            removed == old(self).spec_has_subscriber(id),
            !final(self).spec_has_subscriber(id),
            removed ==> final(self).subscribers@ == old(self).subscribers@.remove(
                old(self).spec_index_of(id),
            ),
            !removed ==> *final(self) == *old(self),
    {
        let at = match self.find_subscriber(id) {
            Some(at) => at,
            None => {
                return false;
            },
        };
        proof {
            let chosen = old(self).spec_index_of(id);
            assert(old(self).subscribers@[chosen].id == id);
            if chosen != at {
                assert(false);
            }
        }
        let _ = self.subscribers.remove(at);
        proof {
            assert forall|i: int|
                0 <= i < self.subscribers@.len() implies #[trigger] self.subscribers@[i].id
                != id by {
                if i < at {
                    assert(self.subscribers@[i] == old(self).subscribers@[i]);
                } else {
                    assert(self.subscribers@[i] == old(self).subscribers@[i + 1]);
                }
            }
            assert forall|i: int| 0 <= i < self.subscribers@.len() implies #[trigger] self.subscribers@[i].wf(
                self.history@,
                self.capacity,
            ) by {
                if i < at {
                    assert(self.subscribers@[i] == old(self).subscribers@[i]);
                } else {
                    assert(self.subscribers@[i] == old(self).subscribers@[i + 1]);
                }
            }
        }
        true
    }
}

/// Law: publishing reaches registered subscribers only — it changes no
/// handle's registration, so a subscriber that was unregistered stays
/// unregistered, keeps no queue, and costs nothing on later publishes.
pub proof fn lemma_publish_targets_registered(o: EventBus, n: EventBus, lbl: LabeledEvent)
    requires
        n.subscribers@.len() == o.subscribers@.len(),
        forall|i: int|
            0 <= i < n.subscribers@.len() ==> publish_step(
                o.subscribers@[i],
                #[trigger] n.subscribers@[i],
                lbl,
                o.capacity,
            ),
    ensures
        forall|id: u64| n.spec_has_subscriber(id) == o.spec_has_subscriber(id),
{
    assert forall|id: u64| n.spec_has_subscriber(id) == o.spec_has_subscriber(id) by {
        assert(forall|i: int|
            0 <= i < n.subscribers@.len() ==> #[trigger] n.subscribers@[i].id
                == o.subscribers@[i].id);
        if o.spec_has_subscriber(id) {
            let i = o.spec_index_of(id);
            assert(n.subscribers@[i].id == id);
        }
        if n.spec_has_subscriber(id) {
            let i = n.spec_index_of(id);
            assert(o.subscribers@[i].id == id);
        }
    }
}

/// Law: a subscriber that has never lost an event has observed the
/// publication history since it joined, exactly and in order — what it has
/// read, followed by what still waits in its queue, is that history itself.
pub proof fn lemma_no_lag_observes_in_order(bus: EventBus, id: u64)
    requires
        bus.wf(),
        bus.spec_has_subscriber(id),
        bus.spec_subscriber(id).lost@ == 0,
    ensures
        bus.spec_subscriber(id).read@ + bus.spec_subscriber(id).queue@ == bus.history@.subrange(
            bus.spec_subscriber(id).start@ as int,
            bus.history@.len() as int,
        ),
{
    let s = bus.spec_subscriber(id);
    let at = bus.spec_index_of(id);
    assert(bus.subscribers@[at].wf(bus.history@, bus.capacity));
    assert(s.read@ + s.queue@ =~= bus.history@.subrange(
        s.start@ as int,
        bus.history@.len() as int,
    ));
}

/// Law: a subscriber with unreported losses has a full queue holding exactly
/// the most recent `capacity` events — the oldest were dropped, never the
/// newest — and its next read reports the lag before any further event.
pub proof fn lemma_overflow_keeps_newest(bus: EventBus, id: u64)
    requires
        bus.wf(),
        bus.spec_has_subscriber(id),
        bus.spec_subscriber(id).missed > 0,
    ensures
        bus.spec_subscriber(id).queue@.len() == bus.capacity,
        bus.spec_subscriber(id).queue@ == bus.history@.subrange(
            bus.history@.len() - bus.capacity,
            bus.history@.len() as int,
        ),
{
    let s = bus.spec_subscriber(id);
    let at = bus.spec_index_of(id);
    assert(bus.subscribers@[at].wf(bus.history@, bus.capacity));
}

} // verus!
