//! Observability records: the structured log event, the field collector that
//! lifts the `message` field out of an event's fields, and the bounded ring
//! of recent events that stamps each with a 1-based sequence number.

use crate::text::same_text;
use std::collections::{BTreeMap, VecDeque};
use vstd::laws_cmp::obeys_cmp;
use vstd::prelude::*;
use vstd::string::StringExecFns;

verus! {

/// A single structured log event.
///
/// `timestamp` is Unix time in milliseconds; `level` is the upper-case level
/// name (`"INFO"`, `"WARN"`, ...). Extra key/value pairs recorded on the event
/// land in `fields` (stringified), while the `message` field is lifted out.
#[derive(Debug, PartialEq, Eq)]
pub struct LogEvent {
    /// Sequence number assigned by the ring on push (1-based; 0 = not yet
    /// stored). Lets a live stream replay the ring and then dedup it.
    pub seq: u64,
    /// Unix timestamp in milliseconds.
    pub timestamp: u64,
    /// Upper-case level name, e.g. `"INFO"`.
    pub level: String,
    /// The event's target (module path by default).
    pub target: String,
    /// The formatted human-readable message.
    pub message: String,
    /// Any additional structured fields, stringified.
    pub fields: BTreeMap<String, String>,
}

/// Two events with the same contents.
pub open spec fn same_event(a: LogEvent, b: LogEvent) -> bool {
    &&& a.seq == b.seq
    &&& a.timestamp == b.timestamp
    &&& a.level == b.level
    &&& a.target == b.target
    &&& a.message == b.message
    &&& a.fields@ == b.fields@
}

impl Clone for LogEvent {
    fn clone(&self) -> (r: Self)
        ensures
            same_event(r, *self),
    {
        LogEvent {
            seq: self.seq,
            timestamp: self.timestamp,
            level: self.level.clone(),
            target: self.target.clone(),
            message: self.message.clone(),
            fields: self.fields.clone(),
        }
    }
}

impl LogEvent {
    /// An unstored event (sequence number 0).
    pub fn new(
        timestamp: u64,
        level: String,
        target: String,
        message: String,
        fields: BTreeMap<String, String>,
    ) -> (e: Self)
        ensures
            e == (LogEvent { seq: 0, timestamp, level, target, message, fields }),
    {
        LogEvent { seq: 0, timestamp, level, target, message, fields }
    }
}

/// Collects an event's `message` field and its other fields as strings.
pub struct LogFields {
    pub message: String,
    pub fields: BTreeMap<String, String>,
}

impl LogFields {
    /// No message, no fields.
    pub fn new() -> (f: Self)
        ensures
            f.message@.len() == 0,
            f.fields@ == Map::<String, String>::empty(),
    {
        LogFields { message: String::new(), fields: BTreeMap::new() }
    }

    /// Record one field: `message` becomes the message, anything else a
    /// field.
    pub fn record(&mut self, name: &str, value: String)
        ensures
            name@ == "message"@ ==> final(self).message == value && final(self).fields == old(
                self,
            ).fields,
            name@ != "message"@ ==> final(self).message == old(self).message,
            name@ != "message"@ ==> (obeys_cmp::<String>() ==> exists|k: String|
                k@ == name@ && #[trigger] old(self).fields@.insert(k, value) == final(self).fields@),
    {
        if same_text(name, "message") {
            self.message = value;
        } else {
            let key = String::from_str(name);
            let ghost k = key;
            let ghost v = value;
            self.fields.insert(key, value);
            assert(obeys_cmp::<String>() ==> (k@ == name@ && old(self).fields@.insert(k, v)
                == self.fields@));
        }
    }
}

/// The ring after one more event: the oldest is evicted when the ring is full.
pub open spec fn ring_push(ring: Seq<LogEvent>, e: LogEvent, cap: nat) -> Seq<LogEvent> {
    if ring.len() >= cap {
        ring.drop_first().push(e)
    } else {
        ring.push(e)
    }
}

/// The sequence number of the `n`-th push: `n`, saturating at `u64::MAX`.
pub open spec fn seq_after(pushed: u64) -> u64 {
    if pushed < u64::MAX {
        (pushed + 1) as u64
    } else {
        pushed
    }
}

/// A bounded ring of the most recent events.
pub struct LogRing {
    events: VecDeque<LogEvent>,
    cap: usize,
    pushed: u64,
    /// Every stamped event pushed so far, in order.
    history: Ghost<Seq<LogEvent>>,
}

impl LogRing {
    /// The buffered events, oldest first.
    pub closed spec fn spec_events(&self) -> Seq<LogEvent> {
        self.events@
    }

    /// The ring's capacity.
    pub closed spec fn spec_cap(&self) -> nat {
        self.cap as nat
    }

    /// Every stamped event pushed so far, oldest first.
    pub closed spec fn spec_history(&self) -> Seq<LogEvent> {
        self.history@
    }

    /// The number of events pushed so far (saturating).
    pub closed spec fn spec_pushed(&self) -> u64 {
        self.pushed
    }

    /// The ring holds at most its capacity, which is at least one.
    pub closed spec fn wf(&self) -> bool {
        &&& self.cap >= 1
        &&& self.events@.len() <= self.cap
        &&& self.events@ == ring_pushes(Seq::empty(), self.history@, self.cap as nat)
    }

    /// A ring that retains at most `cap` events (at least one).
    pub fn new(cap: usize) -> (r: Self)
        ensures
            r.wf(),
            r.spec_events().len() == 0,
            r.spec_history().len() == 0,
            r.spec_cap() == if cap >= 1 { cap as nat } else { 1 },
            r.spec_pushed() == 0,
    {
        let cap = if cap >= 1 {
            cap
        } else {
            1
        };
        let r = LogRing { events: VecDeque::new(), cap, pushed: 0, history: Ghost(Seq::empty()) };
        assert(r.events@ =~= Seq::<LogEvent>::empty());
        r
    }

    /// Configured capacity.
    pub fn capacity(&self) -> (c: usize)
        ensures
            c == self.spec_cap(),
    {
        self.cap
    }

    /// Stamp `event` with the next sequence number and append it, evicting
    /// the oldest event if the ring is full. Returns a copy of the stamped
    /// event for live subscribers.
    pub fn push(&mut self, event: LogEvent) -> (stamped: LogEvent)
        requires
            old(self).wf(),
        ensures
            final(self).wf(),
            final(self).spec_cap() == old(self).spec_cap(),
            final(self).spec_pushed() == seq_after(old(self).spec_pushed()),
            stamped.seq == seq_after(old(self).spec_pushed()),
            same_event(stamped, LogEvent { seq: stamped.seq, ..event }),
            final(self).spec_events() == ring_push(
                old(self).spec_events(),
                LogEvent { seq: stamped.seq, ..event },
                old(self).spec_cap(),
            ),
            final(self).spec_history() == old(self).spec_history().push(
                LogEvent { seq: stamped.seq, ..event },
            ),
            final(self).spec_events() == ring_pushes(
                Seq::empty(),
                final(self).spec_history(),
                final(self).spec_cap(),
            ),
            final(self).spec_events() == final(self).spec_history().subrange(
                if final(self).spec_history().len() > final(self).spec_cap() {
                    final(self).spec_history().len() - final(self).spec_cap()
                } else {
                    0
                },
                final(self).spec_history().len() as int,
            ),
    {
        self.pushed = if self.pushed < u64::MAX {
            self.pushed + 1
        } else {
            self.pushed
        };
        let mut event = event;
        event.seq = self.pushed;
        let copy = event.clone();
        if self.events.len() >= self.cap {
            let _ = self.events.pop_front();
        }
        let ghost stored = event;
        self.events.push_back(event);
        let ghost h = self.history@.push(stored);
        assert(h.drop_last() =~= self.history@);
        self.history = Ghost(h);
        proof {
            law_ring_holds_last_cap(h, self.cap as nat);
        }
        copy
    }

    /// Snapshot the buffered events, oldest first.
    pub fn recent(&self) -> (v: Vec<LogEvent>)
        ensures
            v@.len() == self.spec_events().len(),
            forall|i: int| 0 <= i < v@.len() ==> same_event(#[trigger] v@[i], self.spec_events()[i]),
    {
        let mut v: Vec<LogEvent> = Vec::new();
        let mut i: usize = 0;
        while i < self.events.len()
            invariant
                i <= self.events@.len(),
                v@.len() == i,
                forall|k: int| 0 <= k < i ==> same_event(#[trigger] v@[k], self.events@[k]),
            decreases self.events.len() - i,
        {
            v.push(self.events[i].clone());
            i = i + 1;
        }
        v
    }
}

/// The ring is bounded and keeps the newest: after a push it holds at most
/// its capacity, ends with the pushed event, and keeps every earlier event but
/// the oldest when it was full.
pub proof fn law_ring_keeps_newest(ring: Seq<LogEvent>, e: LogEvent, cap: nat)
    requires
        cap >= 1,
        ring.len() <= cap,
    ensures
        ring_push(ring, e, cap).len() <= cap,
        ring_push(ring, e, cap).last() == e,
        ring.len() < cap ==> ring_push(ring, e, cap).drop_last() == ring,
        ring.len() == cap ==> ring_push(ring, e, cap).drop_last() == ring.drop_first(),
{
    assert(ring.push(e).drop_last() =~= ring);
    if ring.len() == cap {
        assert(ring.drop_first().push(e).drop_last() =~= ring.drop_first());
    }
}

/// Sequence numbers grow with every push until they saturate.
pub proof fn law_seq_is_monotonic(pushed: u64)
    ensures
        seq_after(pushed) >= pushed,
        pushed < u64::MAX ==> seq_after(pushed) == pushed + 1,
{
}


/// The ring after pushing `es` in order onto `ring`.
pub open spec fn ring_pushes(ring: Seq<LogEvent>, es: Seq<LogEvent>, cap: nat) -> Seq<LogEvent>
    decreases es.len(),
{
    if es.len() == 0 {
        ring
    } else {
        ring_push(ring_pushes(ring, es.drop_last(), cap), es.last(), cap)
    }
}

/// Over any number of pushes onto an empty ring, the ring holds the newest
/// `cap` events (all of them while fewer were pushed), oldest first: the
/// oldest are evicted first.
pub proof fn law_ring_holds_last_cap(es: Seq<LogEvent>, cap: nat)
    requires
        cap >= 1,
    ensures
        ring_pushes(Seq::empty(), es, cap) == es.subrange(
            if es.len() > cap { es.len() - cap } else { 0 },
            es.len() as int,
        ),
    decreases es.len(),
{
    if es.len() > 0 {
        let n = es.len() - 1;
        let prev = es.drop_last();
        law_ring_holds_last_cap(prev, cap);
        let k: int = if n > cap { n - cap } else { 0 };
        let r = prev.subrange(k, n);
        assert(r.len() <= cap);
        if r.len() >= cap {
            assert(r.drop_first().push(es.last()) =~= es.subrange(k + 1, es.len() as int));
        } else {
            assert(r.push(es.last()) =~= es.subrange(k, es.len() as int));
        }
    }
}

} // verus!
