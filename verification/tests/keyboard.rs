use std::sync::atomic::{AtomicUsize, Ordering};
use std::sync::Arc;
use std::task::{Wake, Waker};
use tyto::keyboard::{PushOutcome, ScancodeQueue, ScancodeStream, SCANCODE_QUEUE_CAPACITY};

struct Counter {
    wakes: AtomicUsize,
}

impl Wake for Counter {
    fn wake(self: Arc<Self>) {
        self.wakes.fetch_add(1, Ordering::SeqCst);
    }
}

fn counter() -> (Arc<Counter>, Waker) {
    let counter = Arc::new(Counter { wakes: AtomicUsize::new(0) });
    let waker = Waker::from(counter.clone());
    (counter, waker)
}

#[test]
fn scancodes_come_out_in_the_order_they_came() {
    let (_, waker) = counter();
    let mut queue = ScancodeQueue::new(SCANCODE_QUEUE_CAPACITY).expect("valid capacity");
    assert_eq!(queue.add_scancode(0x1e), PushOutcome::Queued);
    assert_eq!(queue.add_scancode(0x9e), PushOutcome::Queued);
    let mut stream = ScancodeStream;
    assert_eq!(stream.poll_next(&mut queue, &waker), Some(0x1e));
    assert_eq!(stream.poll_next(&mut queue, &waker), Some(0x9e));
    assert_eq!(stream.poll_next(&mut queue, &waker), None);
    assert_eq!(queue.dropped(), 0);
}

#[test]
fn overflow_drops_the_newest_byte() {
    for capacity in [1usize, 2, 5, 100] {
        let (_, waker) = counter();
        let mut queue = ScancodeQueue::new(capacity).expect("valid capacity");
        for byte in 0..capacity {
            assert_eq!(queue.add_scancode(byte as u8), PushOutcome::Queued);
        }
        assert_eq!(queue.dropped(), 0);
        assert_eq!(queue.add_scancode(0xff), PushOutcome::Dropped);
        assert_eq!(queue.dropped(), 1);
        assert_eq!(queue.add_scancode(0xfe), PushOutcome::Dropped);
        assert_eq!(queue.dropped(), 2);
        for byte in 0..capacity {
            assert_eq!(queue.poll_next(&waker), Some(byte as u8));
        }
        assert_eq!(queue.poll_next(&waker), None);
    }
}

#[test]
fn a_parked_reader_is_woken_by_the_next_scancode() {
    let (counter, waker) = counter();
    let mut queue = ScancodeQueue::new(4).expect("valid capacity");
    assert_eq!(queue.add_scancode(0x10), PushOutcome::Queued);
    assert_eq!(counter.wakes.load(Ordering::SeqCst), 0);
    assert_eq!(queue.poll_next(&waker), Some(0x10));
    assert_eq!(queue.poll_next(&waker), None);
    assert_eq!(counter.wakes.load(Ordering::SeqCst), 0);
    assert_eq!(queue.add_scancode(0x1e), PushOutcome::Queued);
    assert_eq!(counter.wakes.load(Ordering::SeqCst), 1);
    assert_eq!(queue.add_scancode(0x9e), PushOutcome::Queued);
    assert_eq!(counter.wakes.load(Ordering::SeqCst), 1);
    assert_eq!(queue.poll_next(&waker), Some(0x1e));
    assert_eq!(queue.poll_next(&waker), Some(0x9e));
    assert_eq!(counter.wakes.load(Ordering::SeqCst), 1);
}

#[test]
fn the_waker_of_the_last_poll_is_the_one_that_is_woken() {
    let (first, first_waker) = counter();
    let (second, second_waker) = counter();
    let mut queue = ScancodeQueue::new(4).expect("valid capacity");
    assert_eq!(queue.poll_next(&first_waker), None);
    assert_eq!(queue.poll_next(&second_waker), None);
    assert_eq!(queue.add_scancode(0x1e), PushOutcome::Queued);
    assert_eq!(first.wakes.load(Ordering::SeqCst), 0);
    assert_eq!(second.wakes.load(Ordering::SeqCst), 1);
    let mut stream = ScancodeStream;
    assert_eq!(stream.poll_next(&mut queue, &first_waker), Some(0x1e));
    assert_eq!(stream.poll_next(&mut queue, &first_waker), None);
    assert_eq!(queue.add_scancode(0x9e), PushOutcome::Queued);
    assert_eq!(first.wakes.load(Ordering::SeqCst), 1);
    assert_eq!(second.wakes.load(Ordering::SeqCst), 1);
}

#[test]
fn a_dropped_scancode_wakes_nobody() {
    let (counter, waker) = counter();
    let mut queue = ScancodeQueue::new(1).expect("valid capacity");
    assert_eq!(queue.add_scancode(1), PushOutcome::Queued);
    assert_eq!(queue.add_scancode(2), PushOutcome::Dropped);
    assert_eq!(counter.wakes.load(Ordering::SeqCst), 0);
    assert_eq!(queue.poll_next(&waker), Some(1));
    assert_eq!(queue.poll_next(&waker), None);
    assert_eq!(queue.add_scancode(3), PushOutcome::Queued);
    assert_eq!(counter.wakes.load(Ordering::SeqCst), 1);
}

#[test]
fn the_capacity_is_checked() {
    assert!(ScancodeQueue::new(0).is_none());
    assert!(ScancodeQueue::new(1).is_some());
    assert!(ScancodeQueue::new(0x2_0000).is_some());
    assert!(ScancodeQueue::new(isize::MAX as usize / 16 + 1).is_none());
    assert!(ScancodeQueue::new(usize::MAX).is_none());
    assert_eq!(SCANCODE_QUEUE_CAPACITY, 100);
}
