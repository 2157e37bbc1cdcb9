//! The producer's publishing rules.
//!
//! For each generation the producer writes the working file and puts a watch
//! on it, waits for its rate timer, and renames the working file over the
//! published one. The rename is held back until the watch on the generation
//! published before has shown that a reader opened or read it and closed it
//! again. A driver performs the operations and reports each outcome as a
//! [`ProducerEvent`]; [`Producer::step`] answers with what to do next.

use vstd::prelude::*;
use crate::watch::{has_any, intersects, ACCESS, CLOSE_NOWRITE, OPEN};

verus! {

/// An operation of the producer that can fail.
#[derive(Debug, Clone, Copy, PartialEq, Eq, Structural)]
pub enum ProducerFailure {
    /// Creating, writing or flushing the working file.
    Write,
    /// Registering the watch on the working file just written.
    Watch,
    /// Renaming the working file over the published one.
    Rename,
    /// Removing the watch of a generation that is no longer published.
    Unwatch,
    /// Taking or decoding a notification.
    Notification,
}

/// What the driver reports.
#[derive(Debug, Clone, Copy)]
pub enum ProducerEvent {
    /// The working file is written, flushed and closed, and `watch` is
    /// registered on it.
    Written { watch: i32 },
    /// The rate timer of this generation fired.
    Tick,
    /// The working file was renamed over the published one.
    Renamed,
    /// The watch `wd` fired with the event kinds in `mask`.
    Notified { wd: i32, mask: u32 },
    /// The notification sequence has ended.
    StreamEnded,
    /// An operation failed.
    Failed(ProducerFailure),
}

/// What the driver does next.
#[derive(Debug, Clone, Copy, PartialEq, Eq, Structural)]
pub enum ProducerAction {
    /// Go on with the operations that are due.
    Wait,
    /// A generation was published: remove the watch `stale`, if there is one,
    /// tolerating failure, and start the next generation.
    Restart { stale: Option<i32> },
    /// Nothing more can be published: stop with an error.
    Fatal,
}

/// The state of one producer.
#[derive(Debug, Clone, Copy)]
pub struct Producer {
    /// Whether a rate timer is configured.
    pub rate_limited: bool,
    /// The working file of this generation is complete and watched.
    pub written: bool,
    /// The rate timer of this generation has fired, or there is none.
    pub ticked: bool,
    /// The published generation was opened or read, or there is none yet.
    pub accessed: bool,
    /// The published generation was closed by a reader, or there is none yet.
    pub closed: bool,
    /// The watch on the published generation.
    pub watch: Option<i32>,
    /// The watch on the working file of this generation.
    pub next_watch: Option<i32>,
}

/// `event` is evidence that the generation published in `state` was opened or read.
pub open spec fn shows_access(state: Producer, event: ProducerEvent) -> bool {
    match event {
        ProducerEvent::Notified { wd, mask } => state.watch == Some(wd) && (has_any(mask, ACCESS)
            || has_any(mask, OPEN)),
        _ => false,
    }
}

/// `event` is evidence that the generation published in `state` was closed by a reader.
pub open spec fn shows_close(state: Producer, event: ProducerEvent) -> bool {
    match event {
        ProducerEvent::Notified { wd, mask } => state.watch == Some(wd) && has_any(
            mask,
            CLOSE_NOWRITE,
        ),
        _ => false,
    }
}

impl Producer {
    /// The flags agree with each other: a generation is written exactly when
    /// its watch is held, consumption counts as proved while nothing is
    /// published, and a producer without a rate timer never waits for one.
    pub open spec fn wf(self) -> bool {
        &&& self.written == self.next_watch.is_some()
        &&& self.watch.is_none() ==> self.accessed && self.closed
        &&& !self.rate_limited ==> self.ticked
    }

    /// The state before the first generation.
    pub open spec fn initial(rate_limited: bool) -> Producer {
        Producer {
            rate_limited,
            written: false,
            ticked: !rate_limited,
            accessed: true,
            closed: true,
            watch: None,
            next_watch: None,
        }
    }

    /// The working file may be written: it has not been yet, and the published
    /// generation has been touched by a reader.
    pub open spec fn may_write(self) -> bool {
        !self.written && (self.accessed || self.closed)
    }

    /// The rename may be carried out.
    pub open spec fn may_publish(self) -> bool {
        self.written && self.accessed && self.closed && self.ticked
    }

    /// The rate timer is still to fire.
    pub open spec fn awaits_tick(self) -> bool {
        !self.ticked
    }

    /// Notifications are of interest: a published generation is watched.
    pub open spec fn listens(self) -> bool {
        self.watch.is_some()
    }

    /// The state after `event`. An event for an operation that is not due changes
    /// nothing.
    pub open spec fn next(self, event: ProducerEvent) -> Producer {
        match event {
            ProducerEvent::Written { watch } => if self.may_write() {
                Producer { written: true, next_watch: Some(watch), ..self }
            } else {
                self
            },
            ProducerEvent::Tick => Producer { ticked: true, ..self },
            ProducerEvent::Renamed => if self.may_publish() {
                Producer {
                    written: false,
                    ticked: !self.rate_limited,
                    accessed: false,
                    closed: false,
                    watch: self.next_watch,
                    next_watch: None,
                    ..self
                }
            } else {
                self
            },
            ProducerEvent::Notified { wd, mask } => if self.watch == Some(wd) {
                Producer {
                    accessed: self.accessed || has_any(mask, ACCESS) || has_any(mask, OPEN),
                    closed: self.closed || has_any(mask, CLOSE_NOWRITE),
                    ..self
                }
            } else {
                self
            },
            ProducerEvent::StreamEnded => self,
            ProducerEvent::Failed(_) => self,
        }
    }

    /// The answer to `event`.
    pub open spec fn action(self, event: ProducerEvent) -> ProducerAction {
        match event {
            ProducerEvent::Renamed => if self.may_publish() {
                ProducerAction::Restart { stale: self.watch }
            } else {
                ProducerAction::Wait
            },
            ProducerEvent::StreamEnded => ProducerAction::Fatal,
            ProducerEvent::Failed(failure) => if failure == ProducerFailure::Unwatch {
                ProducerAction::Wait
            } else {
                ProducerAction::Fatal
            },
            _ => ProducerAction::Wait,
        }
    }

    /// The state after all of `events`, in order.
    pub open spec fn run(self, events: Seq<ProducerEvent>) -> Producer
        decreases events.len(),
    {
        if events.len() == 0 {
            self
        } else {
            self.run(events.drop_last()).next(events.last())
        }
    }

    /// A producer that has published nothing yet.
    pub fn new(rate_limited: bool) -> (r: Producer)
        ensures
            r == Producer::initial(rate_limited),
            r.wf(),
    {
        Producer {
            rate_limited,
            written: false,
            ticked: !rate_limited,
            accessed: true,
            closed: true,
            watch: None,
            next_watch: None,
        }
    }

    /// Whether the driver should write the working file now.
    pub fn can_write(&self) -> (r: bool)
        ensures
            r == self.may_write(),
    {
        !self.written && (self.accessed || self.closed)
    }

    /// Whether the driver should carry out the rename now.
    pub fn can_publish(&self) -> (r: bool)
        ensures
            r == self.may_publish(),
    {
        self.written && self.accessed && self.closed && self.ticked
    }

    /// Whether the driver should wait for the rate timer.
    pub fn needs_tick(&self) -> (r: bool)
        ensures
            r == self.awaits_tick(),
    {
        !self.ticked
    }

    /// Whether the driver should take notifications from the sequence.
    pub fn wants_events(&self) -> (r: bool)
        ensures
            r == self.listens(),
    {
        self.watch.is_some()
    }

    /// Takes in one event and says what to do next. Every failure stops the
    /// producer but that of removing a stale watch, which is passed over.
    pub fn step(&mut self, event: ProducerEvent) -> (r: ProducerAction)
        ensures
            *final(self) == old(self).next(event),
            r == old(self).action(event),
            old(self).wf() ==> final(self).wf(),
    {
        match event {
            ProducerEvent::Written { watch } => {
                if self.can_write() {
                    self.written = true;
                    self.next_watch = Some(watch);
                }
                ProducerAction::Wait
            },
            ProducerEvent::Tick => {
                self.ticked = true;
                ProducerAction::Wait
            },
            ProducerEvent::Renamed => {
                if self.can_publish() {
                    let stale = self.watch;
                    self.watch = self.next_watch;
                    self.next_watch = None;
                    self.written = false;
                    self.ticked = !self.rate_limited;
                    self.accessed = false;
                    self.closed = false;
                    ProducerAction::Restart { stale }
                } else {
                    ProducerAction::Wait
                }
            },
            ProducerEvent::Notified { wd, mask } => {
                if self.watch == Some(wd) {
                    if intersects(mask, CLOSE_NOWRITE) {
                        self.closed = true;
                    }
                    if intersects(mask, ACCESS) || intersects(mask, OPEN) {
                        self.accessed = true;
                    }
                }
                ProducerAction::Wait
            },
            ProducerEvent::StreamEnded => ProducerAction::Fatal,
            ProducerEvent::Failed(failure) => match failure {
                ProducerFailure::Unwatch => ProducerAction::Wait,
                _ => ProducerAction::Fatal,
            },
        }
    }
}

/// The rename is answered with a restart only when the working file is
/// written and watched, the published generation was both accessed and closed
/// (or nothing is published yet), and the rate timer has fired. After it both
/// proofs are owed again, by the generation just published.
pub proof fn lemma_publish_needs_all(state: Producer, event: ProducerEvent)
    requires
        state.wf(),
        state.action(event) is Restart,
    ensures
        event is Renamed,
        state.written && state.accessed && state.closed && state.ticked,
        state.next(event).watch == state.next_watch,
        state.next(event).watch.is_some(),
        !state.next(event).accessed && !state.next(event).closed,
        !state.next(event).may_publish(),
{
}

/// A producer is never stuck: in every state it reaches, an operation is due.
pub proof fn lemma_some_operation_is_due(state: Producer)
    requires
        state.wf(),
    ensures
        state.may_write() || state.may_publish() || state.awaits_tick() || state.listens(),
{
}

/// The first generation waits for no reader: once it is written and the
/// timer, if any, has fired, the rename may go ahead.
pub proof fn lemma_first_generation_is_free(rate_limited: bool, watch: i32)
    ensures
        Producer::initial(rate_limited).may_write(),
        Producer::initial(rate_limited).next(ProducerEvent::Written { watch }).next(
            ProducerEvent::Tick,
        ).may_publish(),
        !rate_limited ==> Producer::initial(rate_limited).next(
            ProducerEvent::Written { watch },
        ).may_publish(),
{
}

/// While no event shows that the published generation was opened or read, no
/// later generation is published, whatever else happens.
pub proof fn lemma_no_publish_without_access(state: Producer, events: Seq<ProducerEvent>)
    requires
        state.wf(),
        !state.accessed,
        forall|i: int|
            0 <= i < events.len() ==> !shows_access(
                state.run(#[trigger] events.take(i)),
                events[i],
            ),
    ensures
        !state.run(events).accessed,
        !state.run(events).may_publish(),
        state.run(events).watch == state.watch,
        state.run(events).wf(),
        forall|i: int|
            0 <= i < events.len() ==> !(state.run(#[trigger] events.take(i)).action(
                events[i],
            ) is Restart),
    decreases events.len(),
{
    if events.len() > 0 {
        let front = events.drop_last();
        assert forall|i: int| 0 <= i < front.len() implies !shows_access(
            state.run(#[trigger] front.take(i)),
            front[i],
        ) by {
            assert(front.take(i) =~= events.take(i));
        }
        lemma_no_publish_without_access(state, front);
        assert(events.take(events.len() - 1) =~= front);
        assert forall|i: int| 0 <= i < events.len() implies !(state.run(
            #[trigger] events.take(i),
        ).action(events[i]) is Restart) by {
            if i < front.len() {
                assert(front.take(i) =~= events.take(i));
            }
        }
    }
}

/// While no event shows that a reader closed the published generation, no
/// later generation is published, whatever else happens.
pub proof fn lemma_no_publish_without_close(state: Producer, events: Seq<ProducerEvent>)
    requires
        state.wf(),
        !state.closed,
        forall|i: int|
            0 <= i < events.len() ==> !shows_close(
                state.run(#[trigger] events.take(i)),
                events[i],
            ),
    ensures
        !state.run(events).closed,
        !state.run(events).may_publish(),
        state.run(events).watch == state.watch,
        state.run(events).wf(),
        forall|i: int|
            0 <= i < events.len() ==> !(state.run(#[trigger] events.take(i)).action(
                events[i],
            ) is Restart),
    decreases events.len(),
{
    if events.len() > 0 {
        let front = events.drop_last();
        assert forall|i: int| 0 <= i < front.len() implies !shows_close(
            state.run(#[trigger] front.take(i)),
            front[i],
        ) by {
            assert(front.take(i) =~= events.take(i));
        }
        lemma_no_publish_without_close(state, front);
        assert(events.take(events.len() - 1) =~= front);
        assert forall|i: int| 0 <= i < events.len() implies !(state.run(
            #[trigger] events.take(i),
        ).action(events[i]) is Restart) by {
            if i < front.len() {
                assert(front.take(i) =~= events.take(i));
            }
        }
    }
}

/// With a rate timer, no generation is published before the timer of that
/// generation has fired.
pub proof fn lemma_no_publish_without_tick(state: Producer, events: Seq<ProducerEvent>)
    requires
        state.wf(),
        !state.ticked,
        forall|i: int| 0 <= i < events.len() ==> !(#[trigger] events[i] is Tick),
    ensures
        !state.run(events).ticked,
        !state.run(events).may_publish(),
        state.run(events).wf(),
        forall|i: int|
            0 <= i < events.len() ==> !(state.run(#[trigger] events.take(i)).action(
                events[i],
            ) is Restart),
    decreases events.len(),
{
    if events.len() > 0 {
        let front = events.drop_last();
        lemma_no_publish_without_tick(state, front);
        assert(events.take(events.len() - 1) =~= front);
        assert forall|i: int| 0 <= i < events.len() implies !(state.run(
            #[trigger] events.take(i),
        ).action(events[i]) is Restart) by {
            if i < front.len() {
                assert(front.take(i) =~= events.take(i));
            }
        }
    }
}

/// Every state that a producer reaches is well formed.
pub proof fn lemma_run_keeps_wf(state: Producer, events: Seq<ProducerEvent>)
    requires
        state.wf(),
    ensures
        state.run(events).wf(),
    decreases events.len(),
{
    if events.len() > 0 {
        lemma_run_keeps_wf(state, events.drop_last());
    }
}

/// Whether a rate timer is configured never changes.
pub proof fn lemma_run_keeps_rate(state: Producer, events: Seq<ProducerEvent>)
    ensures
        state.run(events).rate_limited == state.rate_limited,
    decreases events.len(),
{
    if events.len() > 0 {
        lemma_run_keeps_rate(state, events.drop_last());
    }
}

/// Running a prefix of `events` is running a shorter prefix and then the
/// events in between.
pub proof fn lemma_run_split(state: Producer, events: Seq<ProducerEvent>, from: int, to: int)
    requires
        0 <= from <= to <= events.len(),
    ensures
        state.run(events.take(to)) == state.run(events.take(from)).run(
            events.subrange(from, to),
        ),
    decreases to - from,
{
    if from < to {
        lemma_run_split(state, events, from, to - 1);
        assert(events.take(to).drop_last() =~= events.take(to - 1));
        assert(events.subrange(from, to).drop_last() =~= events.subrange(from, to - 1));
    }
}

/// The `index`-th event of a producer's life, counted from startup, is a
/// rename that was due: a generation is published there.
pub open spec fn publishes_at(rate_limited: bool, events: Seq<ProducerEvent>, index: int) -> bool {
    &&& 0 <= index < events.len()
    &&& Producer::initial(rate_limited).run(events.take(index)).action(events[index]) is Restart
}

/// The `index`-th event shows that the generation published at that time was
/// opened or read.
pub open spec fn access_shown_at(
    rate_limited: bool,
    events: Seq<ProducerEvent>,
    index: int,
) -> bool {
    &&& 0 <= index < events.len()
    &&& shows_access(Producer::initial(rate_limited).run(events.take(index)), events[index])
}

/// The `index`-th event shows that the generation published at that time was
/// closed by a reader.
pub open spec fn close_shown_at(
    rate_limited: bool,
    events: Seq<ProducerEvent>,
    index: int,
) -> bool {
    &&& 0 <= index < events.len()
    &&& shows_close(Producer::initial(rate_limited).run(events.take(index)), events[index])
}

/// Between any two publications in a producer's life, the watch on the
/// generation published first has shown both an access and a close by a
/// reader. Only the first publication waits for neither.
pub proof fn lemma_no_premature_overwrite(
    rate_limited: bool,
    events: Seq<ProducerEvent>,
    earlier: int,
    later: int,
)
    requires
        earlier < later,
        publishes_at(rate_limited, events, earlier),
        publishes_at(rate_limited, events, later),
    ensures
        exists|k: int| earlier < k < later && access_shown_at(rate_limited, events, k),
        exists|k: int| earlier < k < later && close_shown_at(rate_limited, events, k),
{
    let start = Producer::initial(rate_limited);
    let before = start.run(events.take(earlier));
    let after = start.run(events.take(earlier + 1));
    let between = events.subrange(earlier + 1, later + 1);
    let last = later - earlier - 1;
    lemma_run_keeps_wf(start, events.take(earlier));
    assert(events.take(earlier + 1).drop_last() =~= events.take(earlier));
    assert(after == before.next(events[earlier]));
    lemma_publish_needs_all(before, events[earlier]);
    assert forall|i: int| 0 <= i < between.len() implies start.run(events.take(earlier + 1 + i))
        == after.run(#[trigger] between.take(i)) by {
        lemma_run_split(start, events, earlier + 1, earlier + 1 + i);
        assert(between.take(i) =~= events.subrange(earlier + 1, earlier + 1 + i));
    }
    lemma_run_keeps_wf(start, events.take(later));
    lemma_publish_needs_all(start.run(events.take(later)), events[later]);
    assert(between[last] == events[later]);
    if !(exists|k: int| earlier < k < later && access_shown_at(rate_limited, events, k)) {
        assert forall|i: int| 0 <= i < between.len() implies !shows_access(
            after.run(#[trigger] between.take(i)),
            between[i],
        ) by {
            if i < last {
                assert(!access_shown_at(rate_limited, events, earlier + 1 + i));
            }
        }
        lemma_no_publish_without_access(after, between);
        assert(!(after.run(between.take(last)).action(between[last]) is Restart));
        assert(false);
    }
    if !(exists|k: int| earlier < k < later && close_shown_at(rate_limited, events, k)) {
        assert forall|i: int| 0 <= i < between.len() implies !shows_close(
            after.run(#[trigger] between.take(i)),
            between[i],
        ) by {
            if i < last {
                assert(!close_shown_at(rate_limited, events, earlier + 1 + i));
            }
        }
        lemma_no_publish_without_close(after, between);
        assert(!(after.run(between.take(last)).action(between[last]) is Restart));
        assert(false);
    }
}

/// With a rate timer, the timer fires between any two publications in a
/// producer's life.
pub proof fn lemma_tick_between_publications(
    events: Seq<ProducerEvent>,
    earlier: int,
    later: int,
)
    requires
        earlier < later,
        publishes_at(true, events, earlier),
        publishes_at(true, events, later),
    ensures
        exists|k: int| earlier < k < later && #[trigger] events[k] is Tick,
{
    let start = Producer::initial(true);
    let before = start.run(events.take(earlier));
    let after = start.run(events.take(earlier + 1));
    let between = events.subrange(earlier + 1, later + 1);
    let last = later - earlier - 1;
    lemma_run_keeps_wf(start, events.take(earlier));
    assert(events.take(earlier + 1).drop_last() =~= events.take(earlier));
    assert(after == before.next(events[earlier]));
    lemma_publish_needs_all(before, events[earlier]);
    assert(before.rate_limited) by {
        lemma_run_keeps_rate(start, events.take(earlier));
    }
    lemma_run_split(start, events, earlier + 1, later);
    assert(between.take(last) =~= events.subrange(earlier + 1, later));
    lemma_run_keeps_wf(start, events.take(later));
    lemma_publish_needs_all(start.run(events.take(later)), events[later]);
    assert(between[last] == events[later]);
    if !(exists|k: int| earlier < k < later && #[trigger] events[k] is Tick) {
        assert forall|i: int| 0 <= i < between.len() implies !(#[trigger] between[i] is Tick) by {
            if i < last {
                assert(between[i] == events[earlier + 1 + i]);
            }
        }
        lemma_no_publish_without_tick(after, between);
        assert(!(after.run(between.take(last)).action(between[last]) is Restart));
        assert(false);
    }
}

/// The end of the notification sequence stops the producer, in every state.
pub proof fn lemma_stream_end_is_fatal(state: Producer)
    ensures
        state.action(ProducerEvent::StreamEnded) == ProducerAction::Fatal,
        state.next(ProducerEvent::StreamEnded) == state,
{
}

/// The producer stops only when the notification sequence has ended or an
/// operation other than the removal of a stale watch has failed.
pub proof fn lemma_fatal_only_on_loss(state: Producer, event: ProducerEvent)
    requires
        state.action(event) == ProducerAction::Fatal,
    ensures
        event is StreamEnded || (event matches ProducerEvent::Failed(failure) && failure
            != ProducerFailure::Unwatch),
{
}

} // verus!
