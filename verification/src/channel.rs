//! Bounded event channels, one per logical CPU.
//!
//! The producer never blocks: into a full channel the newest event is not
//! written, and the channel counts it as dropped. The consumer pulls; within
//! one channel the events come out in the order in which they went in.

use crate::schema::{SyscallEvent, EVENT_SIZE};
use std::collections::VecDeque;
use vstd::prelude::*;

verus! {

/// Capacity of a channel where the caller configures none.
pub const DEFAULT_CHANNEL_CAPACITY: usize = 1024;

/// What became of an event that was handed to a channel.
#[derive(Debug, Clone, Copy, PartialEq, Eq, Structural)]
pub enum SubmitOutcome {
    /// The event is in the channel.
    Queued,
    /// The channel was full: the event is lost and counted.
    Dropped,
}

/// A bounded queue of events with its counters.
#[derive(Debug)]
pub struct EventChannel {
    capacity: usize,
    queue: VecDeque<SyscallEvent>,
    produced: u64,
    consumed: u64,
    dropped: u64,
}

impl EventChannel {
    /// The invariant: the queue keeps within the capacity, and every event
    /// that was produced is exactly one of observed, dropped or pending.
    pub closed spec fn wf(&self) -> bool {
        &&& self.queue@.len() <= self.capacity
        &&& self.produced == self.consumed + self.queue@.len() + self.dropped
    }

    /// The events in the channel, oldest first.
    pub closed spec fn pending(&self) -> Seq<SyscallEvent> {
        self.queue@
    }

    /// The most events that the channel holds.
    pub closed spec fn bound(&self) -> nat {
        self.capacity as nat
    }

    /// How many events were handed to the channel.
    pub closed spec fn produced_count(&self) -> nat {
        self.produced as nat
    }

    /// How many events the consumer took out.
    pub closed spec fn observed_count(&self) -> nat {
        self.consumed as nat
    }

    /// How many events were lost to a full channel.
    pub closed spec fn dropped_count(&self) -> nat {
        self.dropped as nat
    }

    /// An empty channel that holds up to `capacity` events.
    pub fn new(capacity: usize) -> (c: Self)
        ensures
            c.wf(),
            c.pending() == Seq::<SyscallEvent>::empty(),
            c.bound() == capacity,
            c.produced_count() == 0,
            c.observed_count() == 0,
            c.dropped_count() == 0,
    {
        EventChannel { capacity, queue: VecDeque::new(), produced: 0, consumed: 0, dropped: 0 }
    }

    /// Every produced event is exactly one of observed, dropped or pending.
    pub proof fn lemma_conservation(&self)
        requires
            self.wf(),
        ensures
            self.observed_count() + self.dropped_count() + self.pending().len()
                == self.produced_count(),
            self.pending().len() <= self.bound(),
    {
    }

    /// Hands an event to the channel. A full channel drops it and counts the
    /// loss; the events already in the channel are never displaced.
    pub fn push(&mut self, event: SyscallEvent) -> (outcome: SubmitOutcome)
        requires
            old(self).wf(),
            old(self).produced_count() < u64::MAX,
        ensures
            final(self).wf(),
            pushed(*old(self), *final(self), event, outcome),
    {
        self.produced = self.produced + 1;
        if self.queue.len() < self.capacity {
            self.queue.push_back(event);
            SubmitOutcome::Queued
        } else {
            self.dropped = self.dropped + 1;
            SubmitOutcome::Dropped
        }
    }

    /// Takes the oldest event out, if there is one.
    pub fn pop(&mut self) -> (r: Option<SyscallEvent>)
        requires
            old(self).wf(),
        ensures
            final(self).wf(),
            final(self).bound() == old(self).bound(),
            final(self).produced_count() == old(self).produced_count(),
            final(self).dropped_count() == old(self).dropped_count(),
            old(self).pending().len() == 0 ==> {
                &&& r is None
                &&& final(self).pending() == old(self).pending()
                &&& final(self).observed_count() == old(self).observed_count()
            },
            old(self).pending().len() > 0 ==> {
                &&& r == Some(old(self).pending()[0])
                &&& final(self).pending() == old(self).pending().subrange(
                    1,
                    old(self).pending().len() as int,
                )
                &&& final(self).observed_count() == old(self).observed_count() + 1
            },
    {
        let r = self.queue.pop_front();
        if r.is_some() {
            self.consumed = self.consumed + 1;
        }
        r
    }

    /// Takes every event out, oldest first.
    pub fn drain(&mut self) -> (out: Vec<SyscallEvent>)
        requires
            old(self).wf(),
        ensures
            final(self).wf(),
            out@ == old(self).pending(),
            final(self).pending() == Seq::<SyscallEvent>::empty(),
            final(self).bound() == old(self).bound(),
            final(self).produced_count() == old(self).produced_count(),
            final(self).dropped_count() == old(self).dropped_count(),
            final(self).observed_count() == old(self).observed_count() + old(self).pending().len(),
            final(self).observed_count() + final(self).dropped_count()
                == final(self).produced_count(),
    {
        let mut out: Vec<SyscallEvent> = Vec::new();
        loop
            invariant
                self.wf(),
                self.capacity == old(self).capacity,
                self.produced == old(self).produced,
                self.dropped == old(self).dropped,
                out@ + self.queue@ == old(self).queue@,
                self.consumed == old(self).consumed + out@.len(),
            decreases self.queue@.len(),
        {
            let ghost before = self.queue@;
            match self.pop() {
                Some(e) => {
                    proof {
                        assert(out@.push(e) + self.queue@ =~= out@ + before);
                    }
                    out.push(e);
                },
                None => {
                    proof {
                        assert(self.queue@ =~= Seq::<SyscallEvent>::empty());
                        assert(out@ =~= out@ + self.queue@);
                    }
                    return out;
                },
            }
        }
    }

    /// The number of events in the channel.
    pub fn len(&self) -> (n: usize)
        ensures
            n == self.pending().len(),
    {
        self.queue.len()
    }

    /// Whether the next event would be dropped.
    pub fn is_full(&self) -> (r: bool)
        ensures
            r == (self.pending().len() >= self.bound()),
    {
        self.queue.len() >= self.capacity
    }

    /// The most events that the channel holds.
    pub fn capacity(&self) -> (n: usize)
        ensures
            n == self.bound(),
    {
        self.capacity
    }

    /// How many events were handed to the channel.
    pub fn produced(&self) -> (n: u64)
        ensures
            n == self.produced_count(),
    {
        self.produced
    }

    /// How many events the consumer took out.
    pub fn observed(&self) -> (n: u64)
        ensures
            n == self.observed_count(),
    {
        self.consumed
    }

    /// How many events were lost to a full channel.
    pub fn dropped(&self) -> (n: u64)
        ensures
            n == self.dropped_count(),
    {
        self.dropped
    }
}

/// How handing `event` to a channel changes it. A channel with room takes the
/// event at its end; a full one keeps what it holds and counts the loss.
pub open spec fn pushed(
    before: EventChannel,
    after: EventChannel,
    event: SyscallEvent,
    outcome: SubmitOutcome,
) -> bool {
    &&& after.bound() == before.bound()
    &&& after.produced_count() == before.produced_count() + 1
    &&& after.observed_count() == before.observed_count()
    &&& before.pending().len() < before.bound() ==> {
        &&& outcome == SubmitOutcome::Queued
        &&& after.pending() == before.pending().push(event)
        &&& after.dropped_count() == before.dropped_count()
    }
    &&& before.pending().len() >= before.bound() ==> {
        &&& outcome == SubmitOutcome::Dropped
        &&& after.pending() == before.pending()
        &&& after.dropped_count() == before.dropped_count() + 1
    }
}

/// The samples of `samples` that are long enough to hold a record, in order.
pub open spec fn whole_samples(samples: Seq<Vec<u8>>) -> Seq<Vec<u8>> {
    samples.filter(|s: Vec<u8>| s@.len() >= EVENT_SIZE)
}

/// What decoding a batch of raw samples gave.
#[derive(Debug)]
pub struct DecodedBatch {
    /// The records of the samples that were long enough, in order.
    pub events: Vec<SyscallEvent>,
    /// How many samples were too short to hold a record and were skipped.
    pub short_reads: usize,
}

/// Decodes a batch of raw samples, each positionally as one record. A sample
/// shorter than a record is skipped and counted; the others follow in order.
pub fn decode_samples(samples: &Vec<Vec<u8>>) -> (batch: DecodedBatch)
    ensures
        batch.events@.len() == whole_samples(samples@).len(),
        forall|i: int|
            0 <= i < batch.events@.len() ==> (#[trigger] batch.events@[i]).read_from(
                whole_samples(samples@)[i]@,
            ),
        batch.short_reads + batch.events@.len() == samples@.len(),
{
    let mut events: Vec<SyscallEvent> = Vec::new();
    let mut short_reads: usize = 0;
    let mut i: usize = 0;
    proof {
        reveal(Seq::filter);
        assert(samples@.subrange(0, 0) =~= Seq::<Vec<u8>>::empty());
    }
    while i < samples.len()
        invariant
            i <= samples@.len(),
            events@.len() == whole_samples(samples@.subrange(0, i as int)).len(),
            forall|k: int|
                0 <= k < events@.len() ==> (#[trigger] events@[k]).read_from(
                    whole_samples(samples@.subrange(0, i as int))[k]@,
                ),
            short_reads + events@.len() == i,
        decreases samples@.len() - i,
    {
        proof {
            reveal(Seq::filter);
            let next = samples@.subrange(0, i + 1);
            assert(next.drop_last() =~= samples@.subrange(0, i as int));
            assert(next.last() == samples@[i as int]);
        }
        match SyscallEvent::from_bytes(samples[i].as_slice()) {
            Ok(e) => {
                events.push(e);
            },
            Err(_) => {
                short_reads += 1;
            },
        }
        i += 1;
    }
    assert(samples@.subrange(0, samples@.len() as int) =~= samples@);
    DecodedBatch { events, short_reads }
}

/// The events of all the channels, channel by channel, each oldest first.
pub open spec fn fan_in(channels: Seq<EventChannel>) -> Seq<SyscallEvent>
    decreases channels.len(),
{
    if channels.len() == 0 {
        Seq::empty()
    } else {
        fan_in(channels.drop_last()) + channels.last().pending()
    }
}

/// The losses of all the channels together.
pub open spec fn total_dropped(channels: Seq<EventChannel>) -> nat
    decreases channels.len(),
{
    if channels.len() == 0 {
        0
    } else {
        total_dropped(channels.drop_last()) + channels.last().dropped_count()
    }
}

/// The events that all the channels were handed.
pub open spec fn total_produced(channels: Seq<EventChannel>) -> nat
    decreases channels.len(),
{
    if channels.len() == 0 {
        0
    } else {
        total_produced(channels.drop_last()) + channels.last().produced_count()
    }
}

/// The events that the consumer took out of all the channels.
pub open spec fn total_observed(channels: Seq<EventChannel>) -> nat
    decreases channels.len(),
{
    if channels.len() == 0 {
        0
    } else {
        total_observed(channels.drop_last()) + channels.last().observed_count()
    }
}

/// How handing `event` to the channel of `cpu` changes a set of channels: that
/// channel as [`pushed`] says, the others not at all. Where there is no such
/// CPU nothing changes, and the outcome is `None`.
pub open spec fn submitted(
    before: Seq<EventChannel>,
    after: Seq<EventChannel>,
    cpu: usize,
    event: SyscallEvent,
    outcome: Option<SubmitOutcome>,
) -> bool {
    &&& after.len() == before.len()
    &&& forall|i: int| 0 <= i < before.len() && i != cpu ==> after[i] == before[i]
    &&& outcome is None <==> cpu >= before.len()
    &&& cpu < before.len() ==> outcome is Some && pushed(
        before[cpu as int],
        after[cpu as int],
        event,
        outcome->Some_0,
    )
}

/// One channel per logical CPU, found by the CPU's number.
#[derive(Debug)]
pub struct ChannelSet {
    channels: Vec<EventChannel>,
}

impl ChannelSet {
    /// The invariant: every channel keeps its own.
    pub closed spec fn wf(&self) -> bool {
        forall|i: int| 0 <= i < self.channels@.len() ==> (#[trigger] self.channels@[i]).wf()
    }

    /// The channels, by CPU number.
    pub closed spec fn channels(&self) -> Seq<EventChannel> {
        self.channels@
    }

    /// One empty channel of `capacity` events for each of `cpus` CPUs.
    pub fn new(cpus: usize, capacity: usize) -> (s: Self)
        ensures
            s.wf(),
            s.channels().len() == cpus,
            forall|i: int|
                0 <= i < cpus ==> {
                    &&& (#[trigger] s.channels()[i]).pending() == Seq::<SyscallEvent>::empty()
                    &&& s.channels()[i].bound() == capacity
                    &&& s.channels()[i].produced_count() == 0
                    &&& s.channels()[i].observed_count() == 0
                    &&& s.channels()[i].dropped_count() == 0
                },
    {
        let mut channels: Vec<EventChannel> = Vec::new();
        let mut i: usize = 0;
        while i < cpus
            invariant
                i <= cpus,
                channels@.len() == i,
                forall|k: int|
                    0 <= k < i ==> {
                        &&& (#[trigger] channels@[k]).wf()
                        &&& channels@[k].pending() == Seq::<SyscallEvent>::empty()
                        &&& channels@[k].bound() == capacity
                        &&& channels@[k].produced_count() == 0
                        &&& channels@[k].observed_count() == 0
                        &&& channels@[k].dropped_count() == 0
                    },
            decreases cpus - i,
        {
            channels.push(EventChannel::new(capacity));
            i += 1;
        }
        ChannelSet { channels }
    }

    /// The number of channels.
    pub fn cpus(&self) -> (n: usize)
        ensures
            n == self.channels().len(),
    {
        self.channels.len()
    }

    /// Whether the channel of `cpu`, if there is one, can count one more
    /// event.
    pub fn can_count(&self, cpu: usize) -> (r: bool)
        ensures
            r == (cpu < self.channels().len() ==> self.channels()[cpu as int].produced_count()
                < u64::MAX),
    {
        if cpu < self.channels.len() {
            self.channels[cpu].produced() < u64::MAX
        } else {
            true
        }
    }

    /// Hands an event to the channel of `cpu`; the other channels are not
    /// touched. `None`, and nothing changed, where there is no such CPU.
    pub fn submit(&mut self, cpu: usize, event: SyscallEvent) -> (r: Option<SubmitOutcome>)
        requires
            old(self).wf(),
            cpu < old(self).channels().len() ==> old(self).channels()[cpu as int].produced_count()
                < u64::MAX,
        ensures
            final(self).wf(),
            submitted(old(self).channels(), final(self).channels(), cpu, event, r),
    {
        if cpu >= self.channels.len() {
            return None;
        }
        let outcome = self.channels[cpu].push(event);
        Some(outcome)
    }

    /// Takes every event out of every channel: channel by channel in the order
    /// of the CPU numbers, each channel oldest first.
    pub fn drain_all(&mut self) -> (out: Vec<SyscallEvent>)
        requires
            old(self).wf(),
        ensures
            final(self).wf(),
            out@ == fan_in(old(self).channels()),
            final(self).channels().len() == old(self).channels().len(),
            forall|i: int|
                0 <= i < old(self).channels().len() ==> {
                    let before = old(self).channels()[i];
                    let after = #[trigger] final(self).channels()[i];
                    &&& after.pending() == Seq::<SyscallEvent>::empty()
                    &&& after.bound() == before.bound()
                    &&& after.produced_count() == before.produced_count()
                    &&& after.dropped_count() == before.dropped_count()
                    &&& after.observed_count() == before.observed_count() + before.pending().len()
                },
    {
        let mut out: Vec<SyscallEvent> = Vec::new();
        let mut i: usize = 0;
        let n = self.channels.len();
        proof {
            assert(old(self).channels@.subrange(0, 0) =~= Seq::<EventChannel>::empty());
        }
        while i < n
            invariant
                i <= n,
                n == self.channels@.len(),
                n == old(self).channels@.len(),
                self.wf(),
                out@ == fan_in(old(self).channels@.subrange(0, i as int)),
                forall|k: int| i <= k < n ==> self.channels@[k] == old(self).channels@[k],
                forall|k: int|
                    0 <= k < i ==> {
                        let before = old(self).channels@[k];
                        let after = #[trigger] self.channels@[k];
                        &&& after.pending() == Seq::<SyscallEvent>::empty()
                        &&& after.bound() == before.bound()
                        &&& after.produced_count() == before.produced_count()
                        &&& after.dropped_count() == before.dropped_count()
                        &&& after.observed_count() == before.observed_count()
                            + before.pending().len()
                    },
            decreases n - i,
        {
            let ghost prev = self.channels@;
            let mut part = self.channels[i].drain();
            proof {
                let next = old(self).channels@.subrange(0, i + 1);
                assert(next.drop_last() =~= old(self).channels@.subrange(0, i as int));
                assert(next.last() == old(self).channels@[i as int]);
                assert(forall|k: int| 0 <= k < n && k != i ==> self.channels@[k] == prev[k]);
            }
            out.append(&mut part);
            i += 1;
        }
        assert(old(self).channels@.subrange(0, n as int) =~= old(self).channels@);
        out
    }

    /// The losses of all the channels together, or the largest number that
    /// fits where they are more.
    pub fn dropped(&self) -> (n: u64)
        ensures
            n == if total_dropped(self.channels()) > u64::MAX {
                u64::MAX as nat
            } else {
                total_dropped(self.channels())
            },
    {
        let mut sum: u64 = 0;
        let mut i: usize = 0;
        proof {
            assert(self.channels@.subrange(0, 0) =~= Seq::<EventChannel>::empty());
        }
        while i < self.channels.len()
            invariant
                i <= self.channels@.len(),
                sum == if total_dropped(self.channels@.subrange(0, i as int)) > u64::MAX {
                    u64::MAX as nat
                } else {
                    total_dropped(self.channels@.subrange(0, i as int))
                },
            decreases self.channels@.len() - i,
        {
            proof {
                let next = self.channels@.subrange(0, i + 1);
                assert(next.drop_last() =~= self.channels@.subrange(0, i as int));
                assert(next.last() == self.channels@[i as int]);
            }
            let d = self.channels[i].dropped();
            sum = if sum > u64::MAX - d {
                u64::MAX
            } else {
                sum + d
            };
            i += 1;
        }
        assert(self.channels@.subrange(0, self.channels@.len() as int) =~= self.channels@);
        sum
    }
}

/// Over all channels, every produced event is exactly one of observed,
/// dropped or pending; once all channels are drained, observed and dropped
/// together are all that was produced.
pub proof fn lemma_total_conservation(channels: Seq<EventChannel>)
    requires
        forall|i: int| 0 <= i < channels.len() ==> (#[trigger] channels[i]).wf(),
    ensures
        total_observed(channels) + total_dropped(channels) + fan_in(channels).len()
            == total_produced(channels),
    decreases channels.len(),
{
    if channels.len() > 0 {
        let rest = channels.drop_last();
        assert forall|i: int| 0 <= i < rest.len() implies (#[trigger] rest[i]).wf() by {
            assert(rest[i] == channels[i]);
        }
        lemma_total_conservation(rest);
        channels.last().lemma_conservation();
    }
}

} // verus!
