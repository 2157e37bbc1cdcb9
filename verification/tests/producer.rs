use mjpg_multiplex::producer::{Producer, ProducerAction, ProducerEvent, ProducerFailure};
use mjpg_multiplex::watch::{consumption_mask, intersects, ACCESS, CLOSE_NOWRITE, MOVED_TO, OPEN};

#[test]
fn mask_constants() {
    assert_eq!(ACCESS, 0x01);
    assert_eq!(CLOSE_NOWRITE, 0x10);
    assert_eq!(OPEN, 0x20);
    assert_eq!(MOVED_TO, 0x80);
    assert_eq!(consumption_mask(), 0x31);
}

#[test]
fn mask_constants_match_inotify() {
    assert_eq!(ACCESS, inotify::EventMask::ACCESS.bits());
    assert_eq!(CLOSE_NOWRITE, inotify::EventMask::CLOSE_NOWRITE.bits());
    assert_eq!(OPEN, inotify::EventMask::OPEN.bits());
    assert_eq!(MOVED_TO, inotify::EventMask::MOVED_TO.bits());
    let wanted =
        inotify::WatchMask::ACCESS | inotify::WatchMask::CLOSE_NOWRITE | inotify::WatchMask::OPEN;
    assert_eq!(consumption_mask(), wanted.bits());
}

#[test]
fn intersects_tests_shared_bits() {
    assert!(intersects(0x31, ACCESS));
    assert!(intersects(0x30, OPEN));
    assert!(!intersects(0x30, ACCESS));
    assert!(!intersects(0, 0xffff_ffff));
    assert!(intersects(0x4000_0010, CLOSE_NOWRITE));
}

#[test]
fn first_generation_needs_no_reader() {
    let mut p = Producer::new(false);
    assert!(p.can_write());
    assert!(!p.can_publish());
    assert!(!p.needs_tick());
    assert!(!p.wants_events());
    assert_eq!(p.step(ProducerEvent::Written { watch: 1 }), ProducerAction::Wait);
    assert!(!p.can_write());
    assert!(p.can_publish());
    assert_eq!(
        p.step(ProducerEvent::Renamed),
        ProducerAction::Restart { stale: None }
    );
    assert_eq!(p.watch, Some(1));
    assert_eq!(p.next_watch, None);
    assert!(!p.accessed && !p.closed && !p.written);
    assert!(p.wants_events());
}

#[test]
fn second_generation_waits_for_access_and_close() {
    let mut p = Producer::new(false);
    p.step(ProducerEvent::Written { watch: 1 });
    p.step(ProducerEvent::Renamed);
    assert!(!p.can_write());
    assert!(!p.can_publish());
    // a reader opens the published file
    p.step(ProducerEvent::Notified { wd: 1, mask: OPEN });
    assert!(p.accessed && !p.closed);
    assert!(p.can_write());
    p.step(ProducerEvent::Written { watch: 2 });
    assert!(!p.can_publish());
    assert_eq!(p.step(ProducerEvent::Renamed), ProducerAction::Wait);
    assert_eq!(p.watch, Some(1));
    // the reader closes it
    p.step(ProducerEvent::Notified { wd: 1, mask: CLOSE_NOWRITE });
    assert!(p.can_publish());
    assert_eq!(
        p.step(ProducerEvent::Renamed),
        ProducerAction::Restart { stale: Some(1) }
    );
    assert_eq!(p.watch, Some(2));
    assert!(!p.accessed && !p.closed);
}

#[test]
fn close_alone_does_not_allow_the_rename() {
    let mut p = Producer::new(false);
    p.step(ProducerEvent::Written { watch: 1 });
    p.step(ProducerEvent::Renamed);
    p.step(ProducerEvent::Notified { wd: 1, mask: CLOSE_NOWRITE });
    assert!(p.can_write());
    p.step(ProducerEvent::Written { watch: 2 });
    assert!(!p.can_publish());
    assert_eq!(p.step(ProducerEvent::Renamed), ProducerAction::Wait);
    p.step(ProducerEvent::Notified { wd: 1, mask: ACCESS });
    assert!(p.can_publish());
}

#[test]
fn events_of_other_watches_are_ignored() {
    let mut p = Producer::new(false);
    p.step(ProducerEvent::Written { watch: 1 });
    p.step(ProducerEvent::Renamed);
    p.step(ProducerEvent::Notified { wd: 7, mask: OPEN | ACCESS | CLOSE_NOWRITE });
    assert!(!p.accessed && !p.closed);
    assert!(!p.can_write());
}

#[test]
fn events_of_other_kinds_are_ignored() {
    let mut p = Producer::new(false);
    p.step(ProducerEvent::Written { watch: 1 });
    p.step(ProducerEvent::Renamed);
    p.step(ProducerEvent::Notified { wd: 1, mask: MOVED_TO | 0x08 | 0x02 });
    assert!(!p.accessed && !p.closed);
}

#[test]
fn one_event_may_carry_both_proofs() {
    let mut p = Producer::new(false);
    p.step(ProducerEvent::Written { watch: 1 });
    p.step(ProducerEvent::Renamed);
    p.step(ProducerEvent::Notified { wd: 1, mask: ACCESS | CLOSE_NOWRITE });
    assert!(p.accessed && p.closed);
}

#[test]
fn write_out_of_turn_changes_nothing() {
    let mut p = Producer::new(false);
    p.step(ProducerEvent::Written { watch: 1 });
    p.step(ProducerEvent::Written { watch: 9 });
    assert_eq!(p.next_watch, Some(1));
}

#[test]
fn rate_timer_holds_every_generation() {
    let mut p = Producer::new(true);
    assert!(p.needs_tick());
    p.step(ProducerEvent::Written { watch: 1 });
    assert!(!p.can_publish());
    assert_eq!(p.step(ProducerEvent::Renamed), ProducerAction::Wait);
    p.step(ProducerEvent::Tick);
    assert!(!p.needs_tick());
    assert!(p.can_publish());
    assert_eq!(
        p.step(ProducerEvent::Renamed),
        ProducerAction::Restart { stale: None }
    );
    assert!(p.needs_tick());
    p.step(ProducerEvent::Notified { wd: 1, mask: OPEN | CLOSE_NOWRITE });
    p.step(ProducerEvent::Written { watch: 2 });
    assert!(!p.can_publish());
    p.step(ProducerEvent::Tick);
    assert!(p.can_publish());
}

#[test]
fn producer_stops_when_the_sequence_ends() {
    let mut fresh = Producer::new(false);
    assert_eq!(fresh.step(ProducerEvent::StreamEnded), ProducerAction::Fatal);
    let mut p = Producer::new(true);
    p.step(ProducerEvent::Written { watch: 1 });
    p.step(ProducerEvent::Tick);
    p.step(ProducerEvent::Renamed);
    assert_eq!(p.step(ProducerEvent::StreamEnded), ProducerAction::Fatal);
    assert_eq!(p.watch, Some(1));
}

#[test]
fn failures_stop_the_producer_but_for_a_stale_watch() {
    let mut p = Producer::new(false);
    p.step(ProducerEvent::Written { watch: 1 });
    for failure in [
        ProducerFailure::Write,
        ProducerFailure::Watch,
        ProducerFailure::Rename,
        ProducerFailure::Notification,
    ] {
        assert_eq!(p.step(ProducerEvent::Failed(failure)), ProducerAction::Fatal);
    }
    assert_eq!(
        p.step(ProducerEvent::Failed(ProducerFailure::Unwatch)),
        ProducerAction::Wait
    );
    assert!(p.can_publish());
    assert_eq!(p.next_watch, Some(1));
}

#[test]
fn many_generations_each_wait_for_their_reader() {
    let mut p = Producer::new(false);
    p.step(ProducerEvent::Written { watch: 0 });
    assert_eq!(
        p.step(ProducerEvent::Renamed),
        ProducerAction::Restart { stale: None }
    );
    for generation in 1..20 {
        assert!(!p.can_write());
        assert_eq!(p.step(ProducerEvent::Renamed), ProducerAction::Wait);
        p.step(ProducerEvent::Notified { wd: generation - 1, mask: OPEN });
        p.step(ProducerEvent::Written { watch: generation });
        assert_eq!(p.step(ProducerEvent::Renamed), ProducerAction::Wait);
        p.step(ProducerEvent::Notified { wd: generation - 1, mask: ACCESS });
        assert_eq!(p.step(ProducerEvent::Renamed), ProducerAction::Wait);
        p.step(ProducerEvent::Notified { wd: generation - 1, mask: CLOSE_NOWRITE });
        assert_eq!(
            p.step(ProducerEvent::Renamed),
            ProducerAction::Restart { stale: Some(generation - 1) }
        );
        assert_eq!(p.watch, Some(generation));
    }
}
