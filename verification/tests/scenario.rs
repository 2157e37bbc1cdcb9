use mjpg_multiplex::common_args::assert_filename_only;
use mjpg_multiplex::consumer::{Consumer, ConsumerAction, ConsumerEvent};
use mjpg_multiplex::framing::emit_frame;
use mjpg_multiplex::producer::{Producer, ProducerAction, ProducerEvent};
use mjpg_multiplex::watch::{WatchEvent, CLOSE_NOWRITE, MOVED_TO, OPEN};

/// A directory holding at most the published and the working file.
struct Directory {
    published: Option<Vec<u8>>,
    working: Option<Vec<u8>>,
}

#[test]
fn two_generations_are_handed_over_whole() {
    let published_name = assert_filename_only(b"current.jpg").unwrap();
    assert!(assert_filename_only(b"saving.jpg").is_ok());
    let dir_watch = 1;
    let mut dir = Directory { published: None, working: None };
    let mut producer = Producer::new(false);
    let mut consumer = Consumer::new(false, dir_watch, published_name.clone());
    let mut output = Vec::new();

    // first generation
    assert!(producer.can_write());
    dir.working = Some(b"File number 1".to_vec());
    producer.step(ProducerEvent::Written { watch: 2 });
    assert!(producer.can_publish());
    dir.published = dir.working.take();
    assert_eq!(
        producer.step(ProducerEvent::Renamed),
        ProducerAction::Restart { stale: None }
    );
    let announced = ConsumerEvent::Notified(WatchEvent {
        wd: dir_watch,
        mask: MOVED_TO,
        name: Some(published_name.clone()),
    });
    consumer.step(announced.clone());

    // the producer may not touch the next generation yet
    assert!(!producer.can_write());
    assert!(!producer.can_publish());

    // the consumer reads the first generation
    assert!(consumer.can_stream());
    producer.step(ProducerEvent::Notified { wd: 2, mask: OPEN });
    emit_frame(&mut output, b"B", dir.published.as_ref().unwrap());
    consumer.step(ConsumerEvent::Streamed);
    assert_eq!(
        output,
        b"--B\nContent-Type: image/jpg\n\nFile number 1\n".to_vec()
    );

    // the producer writes the second one, and publishes only after the close
    assert!(producer.can_write());
    dir.working = Some(b"File number 2".to_vec());
    producer.step(ProducerEvent::Written { watch: 3 });
    assert!(!producer.can_publish());
    assert_eq!(consumer.step(ConsumerEvent::Idle), ConsumerAction::Advance);
    producer.step(ProducerEvent::Notified { wd: 2, mask: CLOSE_NOWRITE });
    assert!(producer.can_publish());
    dir.published = dir.working.take();
    assert_eq!(
        producer.step(ProducerEvent::Renamed),
        ProducerAction::Restart { stale: Some(2) }
    );

    // the consumer reads the second generation
    consumer.step(announced);
    assert!(consumer.can_stream());
    output.clear();
    emit_frame(&mut output, b"B", dir.published.as_ref().unwrap());
    consumer.step(ConsumerEvent::Streamed);
    assert_eq!(
        output,
        b"--B\nContent-Type: image/jpg\n\nFile number 2\n".to_vec()
    );
}

#[test]
fn consumer_started_late_reads_the_published_frame() {
    let mut producer = Producer::new(false);
    producer.step(ProducerEvent::Written { watch: 2 });
    producer.step(ProducerEvent::Renamed);
    let published = b"File number 1".to_vec();

    let mut consumer = Consumer::new(false, 1, b"current.jpg".to_vec());
    assert!(!consumer.can_stream());
    consumer.step(ConsumerEvent::GraceElapsed);
    assert!(consumer.can_stream());
    let mut output = Vec::new();
    emit_frame(&mut output, b"B", &published);
    assert_eq!(
        output,
        b"--B\nContent-Type: image/jpg\n\nFile number 1\n".to_vec()
    );
}
