//! The consumer's acquisition rules.
//!
//! For each generation the consumer waits until a new frame is announced, by
//! the startup grace timer once or by a notification that the published name
//! was moved into the directory; then it opens the published file and streams
//! it, holds the file until the pacing timer allows it to advance, and starts
//! over. A driver performs the operations and reports each outcome as a
//! [`ConsumerEvent`]; [`Consumer::step`] answers with what to do next.

use vstd::prelude::*;
use crate::watch::{has_any, intersects, same_bytes, WatchEvent, MOVED_TO};

verus! {

/// What the driver reports.
#[derive(Debug, Clone)]
pub enum ConsumerEvent {
    /// The startup grace timer fired.
    GraceElapsed,
    /// The published file was opened and streamed in full; it is still open.
    Streamed,
    /// Opening or streaming the published file failed.
    StreamFailed,
    /// The pacing timer of this generation fired.
    PaceElapsed,
    /// A notification arrived.
    Notified(WatchEvent),
    /// The notification sequence has ended.
    StreamEnded,
    /// Taking or decoding a notification failed.
    SourceFailed,
    /// None of the operations is due.
    Idle,
}

/// What the driver does next.
#[derive(Debug, Clone, Copy, PartialEq, Eq, Structural)]
pub enum ConsumerAction {
    /// Go on with the operations that are due.
    Wait,
    /// The read failed: report it, release what was opened, and start the next
    /// generation.
    Abandon,
    /// Close the file that is held and start the next generation.
    Advance,
    /// A directory entry other than the published one was moved in: report it
    /// and go on.
    ReportForeignName,
    /// A notification of the directory carried no name: report it and go on.
    ReportMissingName,
    /// No frame can be detected any more: stop with an error.
    Fatal,
}

/// The state of one consumer.
#[derive(Debug, Clone)]
pub struct Consumer {
    /// Whether a pacing timer is configured.
    pub rate_limited: bool,
    /// The watch on the work directory.
    pub dir_watch: i32,
    /// The published file name.
    pub filename: Vec<u8>,
    /// The startup grace timer has fired, or a publication made it moot.
    pub grace_done: bool,
    /// A frame is announced and not yet given up.
    pub new_frame: bool,
    /// The pacing timer of this generation has fired, or there is none.
    pub can_advance: bool,
    /// The frame of this generation was streamed, and its file is held open.
    pub holding: bool,
}

/// `event` announces that `filename` was moved into the directory watched by `dir_watch`.
pub open spec fn announces(dir_watch: i32, filename: Seq<u8>, event: WatchEvent) -> bool {
    &&& event.wd == dir_watch
    &&& has_any(event.mask, MOVED_TO)
    &&& event.name matches Some(name) && name@ == filename
}

impl Consumer {
    /// The flags agree with each other: a file is held only for an announced
    /// frame, a frame is announced only once the grace period is over, and a
    /// consumer without a pacing timer never waits for one.
    pub open spec fn wf(self) -> bool {
        &&& self.holding ==> self.new_frame
        &&& self.new_frame ==> self.grace_done
        &&& !self.rate_limited ==> self.can_advance
    }

    /// The state at startup.
    pub open spec fn initial(rate_limited: bool, dir_watch: i32, filename: Vec<u8>) -> Consumer {
        Consumer {
            rate_limited,
            dir_watch,
            filename,
            grace_done: false,
            new_frame: false,
            can_advance: !rate_limited,
            holding: false,
        }
    }

    /// The state at the start of the next generation.
    pub open spec fn restarted(self) -> Consumer {
        Consumer { new_frame: false, can_advance: !self.rate_limited, holding: false, ..self }
    }

    /// The grace timer is still to fire.
    pub open spec fn awaits_grace(self) -> bool {
        !self.grace_done
    }

    /// The published file is to be opened and streamed: a frame is announced
    /// and no stream of this generation has completed.
    pub open spec fn may_stream(self) -> bool {
        self.new_frame && !self.holding
    }

    /// The pacing timer is still to fire.
    pub open spec fn awaits_pace(self) -> bool {
        !self.can_advance
    }

    /// Notifications are of interest: no frame is announced.
    pub open spec fn listens(self) -> bool {
        !self.new_frame
    }

    /// Nothing is due: the generation is over.
    pub open spec fn is_idle(self) -> bool {
        !self.awaits_grace() && !self.may_stream() && !self.awaits_pace() && !self.listens()
    }

    /// The state after `event`. An event for an operation that is not due
    /// changes nothing.
    pub open spec fn next(self, event: ConsumerEvent) -> Consumer {
        match event {
            ConsumerEvent::GraceElapsed => if self.awaits_grace() {
                Consumer { grace_done: true, new_frame: true, ..self }
            } else {
                self
            },
            ConsumerEvent::Streamed => if self.may_stream() {
                Consumer { holding: true, ..self }
            } else {
                self
            },
            ConsumerEvent::StreamFailed => if self.may_stream() {
                self.restarted()
            } else {
                self
            },
            ConsumerEvent::PaceElapsed => Consumer { can_advance: true, ..self },
            ConsumerEvent::Notified(notice) => if self.listens() && announces(
                self.dir_watch,
                self.filename@,
                notice,
            ) {
                Consumer { grace_done: true, new_frame: true, ..self }
            } else {
                self
            },
            ConsumerEvent::StreamEnded => self,
            ConsumerEvent::SourceFailed => self,
            ConsumerEvent::Idle => if self.is_idle() {
                self.restarted()
            } else {
                self
            },
        }
    }

    /// The answer to `event`.
    pub open spec fn action(self, event: ConsumerEvent) -> ConsumerAction {
        match event {
            ConsumerEvent::StreamFailed => if self.may_stream() {
                ConsumerAction::Abandon
            } else {
                ConsumerAction::Wait
            },
            ConsumerEvent::Notified(notice) => if self.listens() && notice.wd == self.dir_watch
                && has_any(notice.mask, MOVED_TO) {
                match notice.name {
                    Some(name) => if name@ == self.filename@ {
                        ConsumerAction::Wait
                    } else {
                        ConsumerAction::ReportForeignName
                    },
                    None => ConsumerAction::ReportMissingName,
                }
            } else {
                ConsumerAction::Wait
            },
            ConsumerEvent::StreamEnded => ConsumerAction::Fatal,
            ConsumerEvent::SourceFailed => ConsumerAction::Fatal,
            ConsumerEvent::Idle => if self.is_idle() {
                ConsumerAction::Advance
            } else {
                ConsumerAction::Wait
            },
            _ => ConsumerAction::Wait,
        }
    }

    /// A consumer of `filename` in the directory watched by `dir_watch`.
    pub fn new(rate_limited: bool, dir_watch: i32, filename: Vec<u8>) -> (r: Consumer)
        ensures
            r == Consumer::initial(rate_limited, dir_watch, filename),
            r.wf(),
    {
        Consumer {
            rate_limited,
            dir_watch,
            filename,
            grace_done: false,
            new_frame: false,
            can_advance: !rate_limited,
            holding: false,
        }
    }

    /// Whether the driver should wait for the grace timer.
    pub fn needs_grace(&self) -> (r: bool)
        ensures
            r == self.awaits_grace(),
    {
        !self.grace_done
    }

    /// Whether the driver should open and stream the published file now.
    pub fn can_stream(&self) -> (r: bool)
        ensures
            r == self.may_stream(),
    {
        self.new_frame && !self.holding
    }

    /// Whether the driver should wait for the pacing timer.
    pub fn needs_pace(&self) -> (r: bool)
        ensures
            r == self.awaits_pace(),
    {
        !self.can_advance
    }

    /// Whether the driver should take notifications from the sequence.
    pub fn wants_events(&self) -> (r: bool)
        ensures
            r == self.listens(),
    {
        !self.new_frame
    }

    /// Whether nothing is due, so that the driver should report
    /// [`ConsumerEvent::Idle`].
    pub fn idle(&self) -> (r: bool)
        ensures
            r == self.is_idle(),
    {
        self.grace_done && self.new_frame && self.holding && self.can_advance
    }

    /// Begins the next generation.
    fn restart(&mut self)
        ensures
            *final(self) == old(self).restarted(),
    {
        self.new_frame = false;
        self.can_advance = !self.rate_limited;
        self.holding = false;
    }

    /// Takes in one event and says what to do next. A failed read gives up the
    /// generation only; the loss of the notification sequence stops the
    /// consumer.
    pub fn step(&mut self, event: ConsumerEvent) -> (r: ConsumerAction)
        ensures
            *final(self) == old(self).next(event),
            r == old(self).action(event),
            old(self).wf() ==> final(self).wf(),
    {
        match event {
            ConsumerEvent::GraceElapsed => {
                if !self.grace_done {
                    self.grace_done = true;
                    self.new_frame = true;
                }
                ConsumerAction::Wait
            },
            ConsumerEvent::Streamed => {
                if self.can_stream() {
                    self.holding = true;
                }
                ConsumerAction::Wait
            },
            ConsumerEvent::StreamFailed => {
                if self.can_stream() {
                    self.restart();
                    ConsumerAction::Abandon
                } else {
                    ConsumerAction::Wait
                }
            },
            ConsumerEvent::PaceElapsed => {
                self.can_advance = true;
                ConsumerAction::Wait
            },
            ConsumerEvent::Notified(notice) => {
                if self.new_frame || notice.wd != self.dir_watch || !intersects(
                    notice.mask,
                    MOVED_TO,
                ) {
                    ConsumerAction::Wait
                } else {
                    match &notice.name {
                        Some(name) => {
                            if same_bytes(name.as_slice(), self.filename.as_slice()) {
                                self.grace_done = true;
                                self.new_frame = true;
                                ConsumerAction::Wait
                            } else {
                                ConsumerAction::ReportForeignName
                            }
                        },
                        None => ConsumerAction::ReportMissingName,
                    }
                }
            },
            ConsumerEvent::StreamEnded => ConsumerAction::Fatal,
            ConsumerEvent::SourceFailed => ConsumerAction::Fatal,
            ConsumerEvent::Idle => {
                if self.idle() {
                    self.restart();
                    ConsumerAction::Advance
                } else {
                    ConsumerAction::Wait
                }
            },
        }
    }
}

/// A failed read does not stop the consumer: the generation is abandoned, the
/// consumer listens again, and the next announcement of the published name is
/// streamed.
pub proof fn lemma_abandon_and_retry(state: Consumer, notice: WatchEvent)
    requires
        state.wf(),
        state.may_stream(),
        announces(state.dir_watch, state.filename@, notice),
    ensures
        state.action(ConsumerEvent::StreamFailed) == ConsumerAction::Abandon,
        state.next(ConsumerEvent::StreamFailed).wf(),
        state.next(ConsumerEvent::StreamFailed).listens(),
        !state.next(ConsumerEvent::StreamFailed).holding,
        state.next(ConsumerEvent::StreamFailed).next(ConsumerEvent::Notified(notice)).may_stream(),
        state.next(ConsumerEvent::StreamFailed).next(ConsumerEvent::Notified(notice)).next(
            ConsumerEvent::Streamed,
        ).holding,
{
}

/// The end of the notification sequence stops the consumer, in every state.
pub proof fn lemma_stream_end_is_fatal(state: Consumer)
    ensures
        state.action(ConsumerEvent::StreamEnded) == ConsumerAction::Fatal,
        state.next(ConsumerEvent::StreamEnded) == state,
{
}

/// The consumer stops only when the notification sequence has ended or
/// failed; a failed read never stops it.
pub proof fn lemma_fatal_only_on_loss(state: Consumer, event: ConsumerEvent)
    requires
        state.action(event) == ConsumerAction::Fatal,
    ensures
        event is StreamEnded || event is SourceFailed,
{
}

/// At most one stream runs per generation: while a streamed file is held, no
/// further stream is due, and with a pacing timer the next generation begins
/// only after the timer has fired.
pub proof fn lemma_one_stream_per_generation(state: Consumer, event: ConsumerEvent)
    requires
        state.wf(),
    ensures
        state.holding ==> !state.may_stream(),
        state.action(event) == ConsumerAction::Advance ==> state.holding && state.can_advance,
        state.action(event) == ConsumerAction::Advance ==> state.next(event).listens()
            && !state.next(event).holding,
{
}

} // verus!
