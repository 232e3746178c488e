//! The scancode queue between the keyboard interrupt and the task that reads
//! keys: a bounded queue of raw bytes and the waker of the one task that
//! waits on it.

use core::task::Waker;
use crossbeam_queue::ArrayQueue;
use futures_util::task::AtomicWaker;
use vstd::prelude::*;

verus! {

/// Number of scancodes the keyboard queue of the kernel holds.
pub const SCANCODE_QUEUE_CAPACITY: usize = 100;

/// The largest capacity a scancode queue can be made with: the slots of the
/// queue, of 16 bytes each, must fit in one allocation.
pub open spec fn queue_capacity_limit() -> int {
    isize::MAX / 16
}

#[verifier::external_type_specification]
#[verifier::external_body]
#[verifier::reject_recursive_types(T)]
pub struct ExArrayQueue<T>(ArrayQueue<T>);

#[verifier::external_type_specification]
#[verifier::external_body]
pub struct ExAtomicWaker(AtomicWaker);

#[verifier::external_type_specification]
#[verifier::external_body]
pub struct ExWaker(Waker);

/// The bytes a bounded queue holds, oldest first.
pub uninterp spec fn queue_contents(queue: ArrayQueue<u8>) -> Seq<u8>;

/// The number of bytes a bounded queue was made to hold.
pub uninterp spec fn queue_capacity(queue: ArrayQueue<u8>) -> nat;

/// `ArrayQueue::new` panics on a capacity of zero and on one whose slots
/// exceed the largest allocation; for the capacities admitted here it makes
/// an empty queue of that capacity.
#[verifier::external_body]
fn queue_new(capacity: usize) -> (queue: ArrayQueue<u8>)
    requires
        0 < capacity <= queue_capacity_limit(),
    ensures
        queue_contents(queue) == Seq::<u8>::empty(),
        queue_capacity(queue) == capacity,
{
    ArrayQueue::new(capacity)
}

/// `ArrayQueue::push` appends the byte if the queue holds fewer bytes than its
/// capacity; if the queue is full it hands the byte back and leaves the queue
/// as it is.
#[verifier::external_body]
fn queue_push(queue: &mut ArrayQueue<u8>, byte: u8) -> (result: Result<(), u8>)
    ensures
        result is Ok ==> queue_capacity(*final(queue)) == queue_capacity(*old(queue)),
        result is Err ==> queue_capacity(*final(queue)) == queue_capacity(*old(queue))
            && queue_contents(*final(queue)) == queue_contents(*old(queue)),
        queue_contents(*old(queue)).len() < queue_capacity(*old(queue)) ==> result is Ok
            && queue_contents(*final(queue)) == queue_contents(*old(queue)).push(byte),
        queue_contents(*old(queue)).len() >= queue_capacity(*old(queue)) ==> (result matches Err(
            returned,
        ) && returned == byte),
{
    queue.push(byte)
}

/// `ArrayQueue::pop` removes and returns the oldest byte, or returns nothing
/// and leaves the queue as it is if the queue is empty.
#[verifier::external_body]
fn queue_pop(queue: &mut ArrayQueue<u8>) -> (result: Option<u8>)
    ensures
        result is Some ==> queue_capacity(*final(queue)) == queue_capacity(*old(queue)),
        result is None ==> queue_capacity(*final(queue)) == queue_capacity(*old(queue))
            && queue_contents(*final(queue)) == queue_contents(*old(queue)),
        queue_contents(*old(queue)).len() == 0 ==> result is None,
        queue_contents(*old(queue)).len() > 0 ==> result == Some(queue_contents(*old(queue))[0])
            && queue_contents(*final(queue)) == queue_contents(*old(queue)).drop_first(),
{
    queue.pop()
}

/// The waker that a cell holds: the one that was registered last and has
/// neither been woken nor taken since.
pub uninterp spec fn waker_held(cell: AtomicWaker) -> Option<Waker>;

/// `AtomicWaker::new` makes a cell with no waker registered.
#[verifier::external_body]
fn waker_cell_new() -> (cell: AtomicWaker)
    ensures
        waker_held(cell) is None,
{
    AtomicWaker::new()
}

/// `AtomicWaker::register` makes `waker` the one that the cell holds, in
/// place of any that was registered before.
#[verifier::external_body]
fn waker_cell_register(cell: &mut AtomicWaker, waker: &Waker)
    ensures
        waker_held(*final(cell)) == Some(*waker),
{
    cell.register(waker)
}

/// `AtomicWaker::wake` wakes the waker that the cell holds, if it holds one,
/// and the cell holds none afterwards.
#[verifier::external_body]
fn waker_cell_wake(cell: &mut AtomicWaker)
    ensures
        waker_held(*final(cell)) is None,
{
    cell.wake()
}

/// `AtomicWaker::take` takes the waker out of the cell without waking it, and
/// the cell holds none afterwards.
#[verifier::external_body]
fn waker_cell_take(cell: &mut AtomicWaker)
    ensures
        waker_held(*final(cell)) is None,
{
    cell.take();
}

/// What a scancode queue is, to its users.
pub struct QueueState {
    /// The bytes that wait to be read, oldest first.
    pub pending: Seq<u8>,
    /// The number of bytes the queue can hold.
    pub capacity: nat,
    /// The waker of the reading task, if it found the queue empty and has not
    /// been woken since.
    pub parked: Option<Waker>,
    /// The number of bytes that were dropped because the queue was full.
    pub dropped: u64,
}

/// The queue after the interrupt handler offers `byte`: the byte is kept
/// behind those that wait and the reader is woken, or, if the queue is full,
/// the byte is dropped and counted.
pub open spec fn pushed(state: QueueState, byte: u8) -> QueueState {
    if state.pending.len() < state.capacity {
        QueueState { pending: state.pending.push(byte), parked: None, ..state }
    } else {
        QueueState {
            dropped: if state.dropped < u64::MAX {
                (state.dropped + 1) as u64
            } else {
                state.dropped
            },
            ..state
        }
    }
}

/// The queue after the interrupt handler offers each byte of `bytes` in turn.
pub open spec fn pushed_all(state: QueueState, bytes: Seq<u8>) -> QueueState
    decreases bytes.len(),
{
    if bytes.len() == 0 {
        state
    } else {
        pushed(pushed_all(state, bytes.drop_last()), bytes.last())
    }
}

/// The queue after the reading task polls it with `waker`: the oldest byte is
/// taken, or, if none waits, `waker` is registered, to be woken by the next
/// byte that is kept.
pub open spec fn polled(state: QueueState, waker: Waker) -> QueueState {
    if state.pending.len() > 0 {
        QueueState { pending: state.pending.drop_first(), ..state }
    } else {
        QueueState { parked: Some(waker), ..state }
    }
}

/// What became of a byte that was offered to the queue.
#[derive(Clone, Copy, Debug, PartialEq, Eq, Structural)]
pub enum PushOutcome {
    /// The byte is in the queue, and the reader was woken if it was parked.
    Queued,
    /// The queue was full and the byte was dropped.
    Dropped,
}

/// The keyboard queue: raw scancodes from the interrupt handler on their way
/// to the one task that reads them.
pub struct ScancodeQueue {
    queue: ArrayQueue<u8>,
    waker: AtomicWaker,
    dropped: u64,
}

impl View for ScancodeQueue {
    type V = QueueState;

    closed spec fn view(&self) -> QueueState {
        QueueState {
            pending: queue_contents(self.queue),
            capacity: queue_capacity(self.queue),
            parked: waker_held(self.waker),
            dropped: self.dropped,
        }
    }
}

impl ScancodeQueue {
    /// An empty queue for up to `capacity` bytes. The capacity is fixed from
    /// here on; there is no queue of capacity zero, nor one whose slots would
    /// not fit in one allocation.
    pub fn new(capacity: usize) -> (result: Option<ScancodeQueue>)
        ensures
            result is Some <==> 0 < capacity <= queue_capacity_limit(),
            result matches Some(queue) ==> queue@ == (QueueState {
                pending: Seq::<u8>::empty(),
                capacity: capacity as nat,
                parked: None,
                dropped: 0,
            }),
    {
        if capacity == 0 || capacity > (isize::MAX as usize) / 16 {
            None
        } else {
            Some(
                ScancodeQueue { queue: queue_new(capacity), waker: waker_cell_new(), dropped: 0 },
            )
        }
    }

    /// Offers a scancode to the queue, for the keyboard interrupt handler.
    /// Never blocks and never allocates. A byte that is kept wakes the waker
    /// of the reading task, if one is registered, which is then registered
    /// no more. A byte that finds the queue full is dropped and counted; the
    /// bytes that wait are never evicted, and nobody is woken.
    pub fn add_scancode(&mut self, scancode: u8) -> (outcome: PushOutcome)
        ensures
            final(self)@ == pushed(old(self)@, scancode),
            outcome == if old(self)@.pending.len() < old(self)@.capacity {
                PushOutcome::Queued
            } else {
                PushOutcome::Dropped
            },
    {
        if queue_push(&mut self.queue, scancode).is_err() {
            if self.dropped < u64::MAX {
                self.dropped += 1;
            }
            PushOutcome::Dropped
        } else {
            waker_cell_wake(&mut self.waker);
            PushOutcome::Queued
        }
    }

    /// Takes the oldest scancode, for the reading task. If none waits, `waker`
    /// is left with the queue, to be woken by the next scancode that arrives.
    pub fn poll_next(&mut self, waker: &Waker) -> (scancode: Option<u8>)
        ensures
            final(self)@ == polled(old(self)@, *waker),
            scancode == if old(self)@.pending.len() > 0 {
                Some(old(self)@.pending[0])
            } else {
                None
            },
    {
        if let Some(scancode) = queue_pop(&mut self.queue) {
            return Some(scancode);
        }
        waker_cell_register(&mut self.waker, waker);
        match queue_pop(&mut self.queue) {
            Some(scancode) => {
                waker_cell_take(&mut self.waker);
                Some(scancode)
            },
            None => None,
        }
    }

    /// Number of scancodes that were dropped because the queue was full.
    pub fn dropped(&self) -> (dropped: u64)
        ensures
            dropped == self@.dropped,
    {
        self.dropped
    }
}

/// A stream of scancodes.
#[derive(Copy, Clone, Debug, PartialEq, Eq, PartialOrd, Ord)]
pub struct ScancodeStream;

impl ScancodeStream {
    /// Returns the next scancode of `queue` if one waits, and otherwise
    /// nothing, having parked `waker` on the queue.
    pub fn poll_next(&mut self, queue: &mut ScancodeQueue, waker: &Waker) -> (scancode: Option<u8>)
        ensures
            final(queue)@ == polled(old(queue)@, *waker),
            scancode == if old(queue)@.pending.len() > 0 {
                Some(old(queue)@.pending[0])
            } else {
                None
            },
    {
        queue.poll_next(waker)
    }
}

/// Bytes offered to a queue are kept in the order they came, behind those
/// that already wait, for as long as there is room; the others are dropped
/// and counted, and nothing that waits is ever evicted. So of `N + 1` bytes
/// offered to an empty queue of capacity `N` the first `N` are kept and one
/// is counted as dropped.
pub proof fn lemma_overflow_drops_newest(state: QueueState, bytes: Seq<u8>)
    requires
        state.pending.len() <= state.capacity,
        state.dropped + bytes.len() <= u64::MAX,
    ensures
        ({
            let after = pushed_all(state, bytes);
            let room = state.capacity - state.pending.len();
            &&& after.capacity == state.capacity
            &&& bytes.len() <= room ==> after.pending == state.pending + bytes && after.dropped
                == state.dropped
            &&& bytes.len() > room ==> after.pending == state.pending + bytes.take(room)
                && after.dropped == state.dropped + (bytes.len() - room)
        }),
    decreases bytes.len(),
{
    let room = state.capacity - state.pending.len();
    if bytes.len() == 0 {
        assert(state.pending + bytes == state.pending);
    } else {
        let front = bytes.drop_last();
        lemma_overflow_drops_newest(state, front);
        let before = pushed_all(state, front);
        if bytes.len() <= room {
            assert((state.pending + front).push(bytes.last()) == state.pending + bytes);
        } else if front.len() <= room {
            assert(front.len() == room);
            assert(bytes.take(room) == front);
        } else {
            assert(bytes.take(room) == front.take(room));
        }
    }
}

} // verus!
