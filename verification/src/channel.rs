//! The channel protocol: a multi-producer, single-consumer, bounded,
//! back-pressured FIFO, modelled as a sequential state machine.
//!
//! The shared state of one channel lives in [`Inner`]. The producer endpoint
//! [`AddressSender`] and the consumer endpoint [`AddressReceiver`] hold no
//! shared data themselves; every operation takes the shared state as an
//! explicit argument and performs one atomic step of the protocol. Task
//! wake-ups are represented by task handles kept in parking slots: parking
//! stores a handle, notifying clears the slot and hands the handle back to
//! the embedding runtime.

use vstd::prelude::*;

use crate::queue::{PopResult, Queue};
use crate::state::{decode_state, encode_state, spec_decode, State};
use crate::state::{INIT_STATE, MAX_BUFFER, MAX_CAPACITY};

verus! {

/// Identifies a task to the embedding runtime; notifying a dead task is a
/// no-op there, so a stale handle is harmless.
pub type TaskHandle = u64;

/// Error returned by the producer operations. The message is handed back so
/// that the caller can recover it.
#[derive(Debug, PartialEq, Eq)]
pub enum SendError<T> {
    /// The channel was closed, by the consumer or by the last producer
    /// being released, when the send started.
    Closed(T),
    /// Back-pressure: the producer is parked, or the channel is at capacity.
    /// The caller should retry once its task is woken.
    NotReady(T),
}

/// Outcome of a poll-style operation.
#[derive(Debug, PartialEq, Eq)]
pub enum Async<T> {
    /// A value is available.
    Ready(T),
    /// Nothing to do yet; the caller's task has been recorded for a wake-up
    /// where the operation promises one.
    NotReady,
}

/// Per-producer parking slot: the task handle to wake and a parked flag.
/// The slot is reachable both through the owning producer and through the
/// parked queue entry that the consumer will eventually pop.
#[derive(Clone, Copy, Debug, PartialEq, Eq, Structural)]
pub struct SenderTask {
    /// Task to wake when a slot frees; `None` for a producer that parked
    /// without a task context.
    pub task: Option<TaskHandle>,
    /// True while the producer is parked.
    pub is_parked: bool,
}

impl SenderTask {
    /// A fresh slot: no task, not parked.
    pub fn new() -> (t: SenderTask)
        ensures
            t == (SenderTask { task: None, is_parked: false }),
    {
        SenderTask { task: None, is_parked: false }
    }

    /// Wakes the producer: clears the parked flag and takes the stored task
    /// handle out of the slot, for the runtime to notify.
    pub fn notify(&mut self)
        ensures
            *final(self) == (SenderTask { task: None, is_parked: false }),
    {
        self.is_parked = false;
        self.task = None;
    }
}

/// The consumer's parking slot.
#[derive(Clone, Copy, Debug, PartialEq, Eq, Structural)]
pub struct ReceiverTask {
    /// A pending wake-up that the consumer has not consumed yet.
    pub unparked: bool,
    /// The consumer's task, while it is parked.
    pub task: Option<TaskHandle>,
}

/// The effect of signalling the consumer: if a wake-up is already pending
/// nothing changes, otherwise one becomes pending and the stored task handle
/// is taken out of the slot, for the runtime to notify.
pub open spec fn signaled(r: ReceiverTask) -> ReceiverTask {
    if r.unparked {
        r
    } else {
        ReceiverTask { unparked: true, task: None }
    }
}

/// The shared state of one channel.
pub struct Inner<T> {
    /// Soft capacity of the channel; `0` means unbounded.
    pub buffer: u64,
    /// Packed state word: the open flag and the count of reserved messages.
    pub state: u64,
    /// FIFO of envelopes; `None` is the terminating sentinel.
    pub message_queue: Queue<Option<T>>,
    /// FIFO of parking slots of producers waiting for capacity, as indices
    /// into `sender_tasks`.
    pub parked_queue: Queue<usize>,
    /// Number of live producer handles.
    pub num_senders: u64,
    /// The consumer's parking slot.
    pub recv_task: ReceiverTask,
    /// The parking slot of every producer handle ever created, indexed by
    /// the handle's `task_id`. A slot outlives its producer, so an entry on
    /// `parked_queue` stays valid after the producer is released.
    pub sender_tasks: Vec<SenderTask>,
}

impl<T> Inner<T> {
    /// True while the channel accepts new reservations.
    pub open spec fn is_open(&self) -> bool {
        spec_decode(self.state).is_open
    }

    /// Number of reserved messages: envelopes pushed or committed to be
    /// pushed (the terminating sentinel included) and not yet popped.
    pub open spec fn num_msgs(&self) -> u64 {
        spec_decode(self.state).num_messages
    }

    /// Well-formedness, preserved by every operation:
    /// - the configured buffer leaves every producer a guaranteed slot;
    /// - count conservation: the tracked count equals the number of
    ///   envelopes resident in the message queue;
    /// - the producer count never exceeds the capacity that is left above
    ///   the buffer;
    /// - every parked-queue entry points at a parking slot.
    pub open spec fn wf(&self) -> bool {
        &&& self.buffer < MAX_BUFFER
        &&& self.num_msgs() == self.message_queue@.len()
        &&& self.num_senders <= MAX_CAPACITY - self.buffer
        &&& forall|i: int|
            0 <= i < self.parked_queue@.len() ==> (#[trigger] self.parked_queue@[i])
                < self.sender_tasks@.len()
    }

    /// The producer count that would exhaust the packed state word.
    pub fn max_senders(&self) -> (r: u64)
        requires
            self.buffer < MAX_BUFFER,
        ensures
            r == MAX_CAPACITY - self.buffer,
    {
        MAX_CAPACITY - self.buffer
    }
}

/// The producer endpoint. It is identified by its parking slot; cloning a
/// handle allocates a fresh slot.
pub struct AddressSender {
    /// Index of this producer's parking slot in `Inner::sender_tasks`.
    pub task_id: usize,
    /// Producer-local hint that this handle may be parked; the slot itself
    /// decides.
    pub maybe_parked: bool,
}

impl AddressSender {
    /// The handle's parking slot exists.
    pub open spec fn wf<T>(&self, inner: Inner<T>) -> bool {
        self.task_id < inner.sender_tasks@.len()
    }

    /// The producer is currently parked: its hint is set and its slot still
    /// holds the parked flag.
    pub open spec fn is_blocked<T>(&self, inner: Inner<T>) -> bool {
        self.maybe_parked && inner.sender_tasks@[self.task_id as int].is_parked
    }

    /// Reports whether the channel is open, from a snapshot of the state
    /// word.
    pub fn connected<T>(&self, inner: &Inner<T>) -> (r: bool)
        ensures
            r == inner.is_open(),
    {
        let state = decode_state(inner.state);
        state.is_open
    }

    /// Reserves one message, unless the channel is closed (`None`) or
    /// back-pressure requires the producer to park first (`Some(true)`,
    /// which reserves nothing: the reservation of a parked producer is
    /// deferred until it is woken and retries).
    fn inc_num_messages<T>(&self, inner: &mut Inner<T>) -> (r: Option<bool>)
        requires
            old(inner).buffer < MAX_BUFFER,
            old(inner).buffer == 0 ==> old(inner).num_msgs() < MAX_CAPACITY,
        ensures
            final(inner).buffer == old(inner).buffer,
            final(inner).message_queue@ == old(inner).message_queue@,
            final(inner).parked_queue@ == old(inner).parked_queue@,
            final(inner).num_senders == old(inner).num_senders,
            final(inner).recv_task == old(inner).recv_task,
            final(inner).sender_tasks@ == old(inner).sender_tasks@,
            !old(inner).is_open() ==> r is None && final(inner).state == old(inner).state,
            old(inner).is_open() && old(inner).buffer > 0 && old(inner).num_msgs() >= old(inner).buffer ==> r == Some(true) && final(inner).state == old(inner).state,
            old(inner).is_open() && (old(inner).buffer == 0 || old(inner).num_msgs() < old(inner).buffer) ==> r == Some(false) && final(inner).is_open() && final(inner).num_msgs()
                == old(inner).num_msgs() + 1,
    {
        let state = decode_state(inner.state);
        if !state.is_open {
            return None;
        }
        let park_self = inner.buffer != 0 && state.num_messages >= inner.buffer;
        if park_self {
            return Some(true);
        }
        let next = State { is_open: true, num_messages: state.num_messages + 1 };
        inner.state = encode_state(&next);
        Some(false)
    }

    /// Reserves one message whatever the count, as long as the channel is
    /// open; with `close` the same step also closes the channel. Reports
    /// whether the new count is at capacity.
    fn inc_num_messages_force<T>(&self, inner: &mut Inner<T>, close: bool) -> (r: Option<bool>)
        requires
            old(inner).num_msgs() < MAX_CAPACITY,
        ensures
            final(inner).buffer == old(inner).buffer,
            final(inner).message_queue@ == old(inner).message_queue@,
            final(inner).parked_queue@ == old(inner).parked_queue@,
            final(inner).num_senders == old(inner).num_senders,
            final(inner).recv_task == old(inner).recv_task,
            final(inner).sender_tasks@ == old(inner).sender_tasks@,
            !old(inner).is_open() ==> r is None && final(inner).state == old(inner).state,
            old(inner).is_open() ==> r == Some(
                old(inner).buffer != 0 && old(inner).num_msgs() + 1 >= old(inner).buffer,
            ) && final(inner).is_open() == !close && final(inner).num_msgs() == old(inner).num_msgs() + 1,
    {
        let state = decode_state(inner.state);
        if !state.is_open {
            return None;
        }
        let next = State { is_open: !close, num_messages: state.num_messages + 1 };
        inner.state = encode_state(&next);
        Some(inner.buffer != 0 && next.num_messages >= inner.buffer)
    }

    /// Signals the consumer that a message has been enqueued: if no wake-up
    /// is pending yet, marks one pending and takes the consumer's task
    /// handle out of its slot, for the runtime to notify.
    fn signal<T>(&self, inner: &mut Inner<T>)
        ensures
            final(inner).buffer == old(inner).buffer,
            final(inner).state == old(inner).state,
            final(inner).message_queue@ == old(inner).message_queue@,
            final(inner).parked_queue@ == old(inner).parked_queue@,
            final(inner).num_senders == old(inner).num_senders,
            final(inner).sender_tasks@ == old(inner).sender_tasks@,
            final(inner).recv_task == signaled(old(inner).recv_task),
    {
        if inner.recv_task.unparked {
            return;
        }
        inner.recv_task.unparked = true;
        inner.recv_task.task = None;
    }

    /// Pushes an envelope onto the message queue and signals the consumer.
    fn queue_push_and_signal<T>(&self, inner: &mut Inner<T>, msg: Option<T>)
        ensures
            final(inner).buffer == old(inner).buffer,
            final(inner).state == old(inner).state,
            final(inner).message_queue@ == old(inner).message_queue@.push(msg),
            final(inner).parked_queue@ == old(inner).parked_queue@,
            final(inner).num_senders == old(inner).num_senders,
            final(inner).sender_tasks@ == old(inner).sender_tasks@,
            final(inner).recv_task == signaled(old(inner).recv_task),
    {
        inner.message_queue.push(msg);
        self.signal(inner);
    }

    /// Parks this producer: installs `task` in its parking slot with the
    /// parked flag set, and enqueues the slot for the consumer to pop. The
    /// hint `maybe_parked` is refreshed from the open flag: on a channel
    /// that was closed meanwhile the producer need not wait for a wake-up.
    fn park<T>(&mut self, inner: &mut Inner<T>, task: Option<TaskHandle>)
        requires
            old(self).wf(*old(inner)),
        ensures
            final(self).task_id == old(self).task_id,
            final(self).maybe_parked == old(inner).is_open(),
            final(inner).buffer == old(inner).buffer,
            final(inner).state == old(inner).state,
            final(inner).message_queue@ == old(inner).message_queue@,
            final(inner).num_senders == old(inner).num_senders,
            final(inner).recv_task == old(inner).recv_task,
            final(inner).sender_tasks@ == old(inner).sender_tasks@.update(
                old(self).task_id as int,
                (SenderTask { task, is_parked: true }),
            ),
            final(inner).parked_queue@ == old(inner).parked_queue@.push(old(self).task_id),
    {
        inner.sender_tasks.set(self.task_id, SenderTask { task, is_parked: true });
        inner.parked_queue.push(self.task_id);
        let state = decode_state(inner.state);
        self.maybe_parked = state.is_open;
    }

    /// Checks the producer's parked status. A producer whose slot still has
    /// the parked flag is not ready: a wake-up is pending, and the stored
    /// task handle is refreshed so that the right task is woken. Otherwise
    /// the hint is cleared and the producer is ready.
    fn poll_unparked<T>(&mut self, inner: &mut Inner<T>, task: Option<TaskHandle>) -> (ready: bool)
        requires
            old(self).wf(*old(inner)),
        ensures
            final(self).task_id == old(self).task_id,
            ready == !old(self).is_blocked(*old(inner)),
            final(self).maybe_parked == !ready,
            final(inner).buffer == old(inner).buffer,
            final(inner).state == old(inner).state,
            final(inner).message_queue@ == old(inner).message_queue@,
            final(inner).parked_queue@ == old(inner).parked_queue@,
            final(inner).num_senders == old(inner).num_senders,
            final(inner).recv_task == old(inner).recv_task,
            ready ==> final(inner).sender_tasks@ == old(inner).sender_tasks@,
            !ready ==> final(inner).sender_tasks@ == old(inner).sender_tasks@.update(
                old(self).task_id as int,
                (SenderTask { task, is_parked: true }),
            ),
    {
        if self.maybe_parked {
            if !inner.sender_tasks[self.task_id].is_parked {
                self.maybe_parked = false;
                return true;
            }
            inner.sender_tasks.set(self.task_id, SenderTask { task, is_parked: true });
            false
        } else {
            true
        }
    }

    /// Attempts to send a message without a task context, so back-pressure
    /// rejects the message instead of parking the producer.
    ///
    /// The message is delivered if and only if the producer is not parked,
    /// the channel is open and the count is below capacity; the delivery
    /// enqueues exactly one envelope, reserves exactly one message and
    /// signals the consumer. A back-pressured send never leaves more than
    /// `buffer` envelopes resident.
    pub fn try_send<T>(&mut self, inner: &mut Inner<T>, msg: T) -> (r: Result<(), SendError<T>>)
        requires
            old(self).wf(*old(inner)),
            old(inner).wf(),
            old(inner).buffer == 0 ==> old(inner).num_msgs() < MAX_CAPACITY,
        ensures
            final(inner).wf(),
            final(self).wf(*final(inner)),
            final(self).task_id == old(self).task_id,
            final(inner).buffer == old(inner).buffer,
            final(inner).num_senders == old(inner).num_senders,
            final(inner).parked_queue@ == old(inner).parked_queue@,
            old(inner).buffer > 0 && r is Ok ==> final(inner).message_queue@.len() <= old(inner).buffer,
            old(self).is_blocked(*old(inner)) ==> r == Err::<(), SendError<T>>(SendError::NotReady(msg))
                && final(self).maybe_parked && final(inner).state == old(inner).state && final(inner).message_queue@ == old(inner).message_queue@ && final(inner).recv_task == old(inner).recv_task && final(inner).sender_tasks@ == old(inner).sender_tasks@.update(
                old(self).task_id as int,
                (SenderTask { task: None, is_parked: true }),
            ),
            !old(self).is_blocked(*old(inner)) ==> !final(self).maybe_parked && final(inner).sender_tasks@ == old(inner).sender_tasks@ && (if !old(inner).is_open() {
                r == Err::<(), SendError<T>>(SendError::Closed(msg)) && final(inner).state == old(inner).state
                    && final(inner).message_queue@ == old(inner).message_queue@ && final(inner).recv_task == old(inner).recv_task
            } else if old(inner).buffer > 0 && old(inner).num_msgs() >= old(inner).buffer {
                r == Err::<(), SendError<T>>(SendError::NotReady(msg)) && final(inner).state == old(inner).state
                    && final(inner).message_queue@ == old(inner).message_queue@ && final(inner).recv_task == old(inner).recv_task
            } else {
                r == Ok::<(), SendError<T>>(()) && final(inner).is_open() && final(inner).num_msgs() == old(inner).num_msgs() + 1 && final(inner).message_queue@ == old(inner).message_queue@.push(Some(msg)) && final(inner).recv_task == signaled(
                    old(inner).recv_task,
                )
            }),
    {
        if !self.poll_unparked(inner, None) {
            return Err(SendError::NotReady(msg));
        }
        let park_self = match self.inc_num_messages(inner) {
            Some(park_self) => park_self,
            None => {
                return Err(SendError::Closed(msg));
            },
        };
        if park_self {
            Err(SendError::NotReady(msg))
        } else {
            self.queue_push_and_signal(inner, Some(msg));
            Ok(())
        }
    }

    /// Attempts to send a message from within the task `current`.
    ///
    /// Like [`Self::try_send`], but when back-pressure rejects the message
    /// the producer parks: its slot, holding `current`, is enqueued for the
    /// consumer, which wakes it with the pop that frees the contended slot.
    /// A parked producer reserves nothing until it is woken and retries.
    pub fn send<T>(&mut self, inner: &mut Inner<T>, current: TaskHandle, msg: T) -> (r: Result<
        (),
        SendError<T>,
    >)
        requires
            old(self).wf(*old(inner)),
            old(inner).wf(),
            old(inner).buffer == 0 ==> old(inner).num_msgs() < MAX_CAPACITY,
        ensures
            final(inner).wf(),
            final(self).wf(*final(inner)),
            final(self).task_id == old(self).task_id,
            final(inner).buffer == old(inner).buffer,
            final(inner).num_senders == old(inner).num_senders,
            old(inner).buffer > 0 && r is Ok ==> final(inner).message_queue@.len() <= old(inner).buffer,
            old(self).is_blocked(*old(inner)) ==> r == Err::<(), SendError<T>>(SendError::NotReady(msg))
                && final(self).maybe_parked && final(inner).state == old(inner).state && final(inner).message_queue@ == old(inner).message_queue@ && final(inner).parked_queue@ == old(inner).parked_queue@ && final(inner).recv_task == old(inner).recv_task && final(inner).sender_tasks@ == old(inner).sender_tasks@.update(
                old(self).task_id as int,
                (SenderTask { task: None, is_parked: true }),
            ),
            !old(self).is_blocked(*old(inner)) ==> (if !old(inner).is_open() {
                r == Err::<(), SendError<T>>(SendError::Closed(msg)) && !final(self).maybe_parked && final(inner).state == old(inner).state && final(inner).message_queue@ == old(inner).message_queue@ && final(inner).parked_queue@ == old(inner).parked_queue@
                    && final(inner).recv_task == old(inner).recv_task && final(inner).sender_tasks@ == old(inner).sender_tasks@
            } else if old(inner).buffer > 0 && old(inner).num_msgs() >= old(inner).buffer {
                r == Err::<(), SendError<T>>(SendError::NotReady(msg)) && final(self).maybe_parked && final(inner).state == old(inner).state && final(inner).message_queue@ == old(inner).message_queue@ && final(inner).recv_task == old(inner).recv_task && final(inner).parked_queue@ == old(inner).parked_queue@.push(old(self).task_id) && final(inner).sender_tasks@ == old(inner).sender_tasks@.update(
                    old(self).task_id as int,
                    (SenderTask { task: Some(current), is_parked: true }),
                )
            } else {
                r == Ok::<(), SendError<T>>(()) && !final(self).maybe_parked && final(inner).is_open() && final(inner).num_msgs() == old(inner).num_msgs() + 1 && final(inner).message_queue@ == old(inner).message_queue@.push(Some(msg)) && final(inner).parked_queue@ == old(inner).parked_queue@ && final(inner).recv_task == signaled(old(inner).recv_task)
                    && final(inner).sender_tasks@ == old(inner).sender_tasks@
            }),
    {
        if !self.poll_unparked(inner, None) {
            return Err(SendError::NotReady(msg));
        }
        let park_self = match self.inc_num_messages(inner) {
            Some(park_self) => park_self,
            None => {
                return Err(SendError::Closed(msg));
            },
        };
        if park_self {
            self.park(inner, Some(current));
            Err(SendError::NotReady(msg))
        } else {
            self.queue_push_and_signal(inner, Some(msg));
            Ok(())
        }
    }

    /// Sends a message past back-pressure: the escape hatch for
    /// fire-and-forget signalling. Delivers if and only if the channel is
    /// open; never parks and never reports `NotReady`.
    pub fn do_send<T>(&self, inner: &mut Inner<T>, msg: T) -> (r: Result<(), SendError<T>>)
        requires
            old(inner).wf(),
            old(inner).num_msgs() < MAX_CAPACITY,
        ensures
            final(inner).wf(),
            final(inner).buffer == old(inner).buffer,
            final(inner).num_senders == old(inner).num_senders,
            final(inner).parked_queue@ == old(inner).parked_queue@,
            final(inner).sender_tasks@ == old(inner).sender_tasks@,
            !old(inner).is_open() ==> r == Err::<(), SendError<T>>(SendError::Closed(msg)) && final(inner).state == old(inner).state && final(inner).message_queue@ == old(inner).message_queue@ && final(inner).recv_task == old(inner).recv_task,
            old(inner).is_open() ==> r == Ok::<(), SendError<T>>(()) && final(inner).is_open() && final(inner).num_msgs() == old(inner).num_msgs() + 1 && final(inner).message_queue@ == old(inner).message_queue@.push(Some(msg)) && final(inner).recv_task == signaled(
                old(inner).recv_task,
            ),
    {
        if self.inc_num_messages_force(inner, false).is_none() {
            Err(SendError::Closed(msg))
        } else {
            self.queue_push_and_signal(inner, Some(msg));
            Ok(())
        }
    }

    /// Closes the channel on behalf of the last producer and pushes the
    /// terminating sentinel. Run as part of a release, where no task context
    /// is available: when the sentinel lands above capacity the slot is
    /// enqueued with no task to wake, and the sentinel is simply delivered
    /// whenever the consumer reaches it.
    fn do_close<T>(&mut self, inner: &mut Inner<T>)
        requires
            old(self).wf(*old(inner)),
            old(inner).num_msgs() < MAX_CAPACITY,
        ensures
            final(self).task_id == old(self).task_id,
            final(inner).buffer == old(inner).buffer,
            final(inner).num_senders == old(inner).num_senders,
            !old(inner).is_open() ==> final(inner).state == old(inner).state && final(inner).message_queue@ == old(inner).message_queue@ && final(inner).parked_queue@ == old(inner).parked_queue@ && final(inner).recv_task == old(inner).recv_task && final(inner).sender_tasks@ == old(inner).sender_tasks@,
            old(inner).is_open() ==> !final(inner).is_open() && final(inner).num_msgs() == old(inner).num_msgs() + 1 && final(inner).message_queue@ == old(inner).message_queue@.push(
                None,
            ) && final(inner).recv_task == signaled(old(inner).recv_task) && (if old(inner).buffer != 0 && old(inner).num_msgs() + 1 >= old(inner).buffer {
                final(inner).parked_queue@ == old(inner).parked_queue@.push(old(self).task_id)
                    && final(inner).sender_tasks@ == old(inner).sender_tasks@.update(
                    old(self).task_id as int,
                    (SenderTask { task: None, is_parked: true }),
                )
            } else {
                final(inner).parked_queue@ == old(inner).parked_queue@ && final(inner).sender_tasks@ == old(inner).sender_tasks@
            }),
    {
        let park_self = match self.inc_num_messages_force(inner, true) {
            Some(park_self) => park_self,
            None => {
                return;
            },
        };
        if park_self {
            self.park(inner, None);
        }
        self.queue_push_and_signal(inner, None);
    }

    /// Releases this producer handle. When it is the last one, the channel
    /// is closed and exactly one terminating sentinel is pushed after every
    /// envelope already committed; otherwise only the producer count drops.
    pub fn release<T>(self, inner: &mut Inner<T>)
        requires
            self.wf(*old(inner)),
            old(inner).wf(),
            old(inner).num_senders >= 1,
            old(inner).num_msgs() < MAX_CAPACITY,
        ensures
            final(inner).wf(),
            final(inner).buffer == old(inner).buffer,
            final(inner).num_senders == old(inner).num_senders - 1,
            old(inner).num_senders > 1 ==> final(inner).state == old(inner).state && final(inner).message_queue@ == old(inner).message_queue@ && final(inner).parked_queue@ == old(inner).parked_queue@ && final(inner).recv_task == old(inner).recv_task && final(inner).sender_tasks@ == old(inner).sender_tasks@,
            old(inner).num_senders == 1 && !old(inner).is_open() ==> final(inner).state == old(inner).state && final(inner).message_queue@ == old(inner).message_queue@ && final(inner).parked_queue@ == old(inner).parked_queue@ && final(inner).recv_task == old(inner).recv_task && final(inner).sender_tasks@ == old(inner).sender_tasks@,
            old(inner).num_senders == 1 && old(inner).is_open() ==> !final(inner).is_open()
                && final(inner).num_msgs() == old(inner).num_msgs() + 1 && final(inner).message_queue@ == old(inner).message_queue@.push(None) && final(inner).recv_task
                == signaled(old(inner).recv_task) && (if old(inner).buffer != 0 && old(inner).num_msgs() + 1 >= old(inner).buffer {
                final(inner).parked_queue@ == old(inner).parked_queue@.push(self.task_id)
                    && final(inner).sender_tasks@ == old(inner).sender_tasks@.update(
                    self.task_id as int,
                    (SenderTask { task: None, is_parked: true }),
                )
            } else {
                final(inner).parked_queue@ == old(inner).parked_queue@ && final(inner).sender_tasks@ == old(inner).sender_tasks@
            }),
    {
        let mut this = self;
        let prev = inner.num_senders;
        inner.num_senders = prev - 1;
        if prev == 1 {
            this.do_close(inner);
        }
    }

    /// Creates another producer handle on the same channel, with a fresh
    /// parking slot. The producer count may never reach the capacity left
    /// above the buffer, so that every producer keeps a guaranteed slot.
    pub fn clone_handle<T>(&self, inner: &mut Inner<T>) -> (tx: AddressSender)
        requires
            old(inner).wf(),
            old(inner).num_senders < MAX_CAPACITY - old(inner).buffer,
        ensures
            final(inner).wf(),
            tx.wf(*final(inner)),
            !tx.maybe_parked,
            !tx.is_blocked(*final(inner)),
            tx.task_id == old(inner).sender_tasks@.len(),
            final(inner).buffer == old(inner).buffer,
            final(inner).state == old(inner).state,
            final(inner).message_queue@ == old(inner).message_queue@,
            final(inner).parked_queue@ == old(inner).parked_queue@,
            final(inner).recv_task == old(inner).recv_task,
            final(inner).num_senders == old(inner).num_senders + 1,
            final(inner).sender_tasks@ == old(inner).sender_tasks@.push(
                (SenderTask { task: None, is_parked: false }),
            ),
    {
        inner.num_senders = inner.num_senders + 1;
        let task_id = inner.sender_tasks.len();
        inner.sender_tasks.push(SenderTask::new());
        AddressSender { task_id, maybe_parked: false }
    }
}

/// The consumer endpoint; there is exactly one per channel, and only it may
/// pop either queue.
pub struct AddressReceiver {}

/// Outcome of the consumer's attempt to park.
enum TryPark {
    /// The consumer's task is recorded; a signal will wake it.
    Parked,
    /// The channel is closed and fully drained: nothing will ever arrive.
    Closed,
    /// A pending wake-up was consumed instead of parking: a producer was
    /// active, so the queue deserves another look.
    NotEmpty,
}

impl AddressReceiver {
    /// Reports whether the channel is still worth polling: it is open, or
    /// messages remain to be drained.
    pub fn connected<T>(&self, inner: &Inner<T>) -> (r: bool)
        ensures
            r == (inner.is_open() || inner.num_msgs() > 0),
    {
        let state = decode_state(inner.state);
        state.is_open || state.num_messages != 0
    }

    /// Pops the next envelope off the message queue, if there is one.
    fn next_message<T>(&mut self, inner: &mut Inner<T>) -> (r: Async<Option<T>>)
        ensures
            final(inner).buffer == old(inner).buffer,
            final(inner).state == old(inner).state,
            final(inner).parked_queue@ == old(inner).parked_queue@,
            final(inner).num_senders == old(inner).num_senders,
            final(inner).recv_task == old(inner).recv_task,
            final(inner).sender_tasks@ == old(inner).sender_tasks@,
            old(inner).message_queue@.len() == 0 ==> r is NotReady && final(inner).message_queue@
                == old(inner).message_queue@,
            old(inner).message_queue@.len() > 0 ==> r == Async::Ready(
                old(inner).message_queue@[0],
            ) && final(inner).message_queue@ == old(inner).message_queue@.drop_first(),
    {
        match inner.message_queue.pop() {
            PopResult::Data(msg) => Async::Ready(msg),
            PopResult::Empty => Async::NotReady,
        }
    }

    /// Pops one parking slot off the parked queue, if there is one, and
    /// wakes the producer it belongs to. Exactly one producer is woken by
    /// every pop of a real envelope, which pairs each freed slot with one
    /// parked producer.
    fn unpark_one<T>(&mut self, inner: &mut Inner<T>)
        requires
            forall|i: int|
                0 <= i < old(inner).parked_queue@.len() ==> (#[trigger] old(
                    inner,
                ).parked_queue@[i]) < old(inner).sender_tasks@.len(),
        ensures
            final(inner).buffer == old(inner).buffer,
            final(inner).state == old(inner).state,
            final(inner).message_queue@ == old(inner).message_queue@,
            final(inner).num_senders == old(inner).num_senders,
            final(inner).recv_task == old(inner).recv_task,
            old(inner).parked_queue@.len() == 0 ==> final(inner).parked_queue@ == old(inner).parked_queue@ && final(inner).sender_tasks@ == old(inner).sender_tasks@,
            old(inner).parked_queue@.len() > 0 ==> final(inner).parked_queue@ == old(inner).parked_queue@.drop_first() && final(inner).sender_tasks@ == old(inner).sender_tasks@.update(
                old(inner).parked_queue@[0] as int,
                (SenderTask { task: None, is_parked: false }),
            ),
    {
        match inner.parked_queue.pop() {
            PopResult::Data(id) => {
                let mut t = inner.sender_tasks[id];
                t.notify();
                inner.sender_tasks.set(id, t);
            },
            PopResult::Empty => {},
        }
    }

    /// Tries to park the consumer's task `current`. On a closed and drained
    /// channel there is nothing to wait for; a pending wake-up is consumed
    /// instead of parking, since a producer may have enqueued a message in
    /// the meantime.
    fn try_park<T>(&self, inner: &mut Inner<T>, current: TaskHandle) -> (r: TryPark)
        ensures
            final(inner).buffer == old(inner).buffer,
            final(inner).state == old(inner).state,
            final(inner).message_queue@ == old(inner).message_queue@,
            final(inner).parked_queue@ == old(inner).parked_queue@,
            final(inner).num_senders == old(inner).num_senders,
            final(inner).sender_tasks@ == old(inner).sender_tasks@,
            !old(inner).is_open() && old(inner).num_msgs() == 0 ==> r is Closed && final(inner).recv_task == old(inner).recv_task,
            (old(inner).is_open() || old(inner).num_msgs() > 0) && old(inner).recv_task.unparked
                ==> r is NotEmpty && final(inner).recv_task == (ReceiverTask {
                unparked: false,
                task: old(inner).recv_task.task,
            }),
            (old(inner).is_open() || old(inner).num_msgs() > 0) && !old(inner).recv_task.unparked ==> r is Parked && final(inner).recv_task == (ReceiverTask {
                unparked: false,
                task: Some(current),
            }),
    {
        let state = decode_state(inner.state);
        if !state.is_open && state.num_messages == 0 {
            return TryPark::Closed;
        }
        if inner.recv_task.unparked {
            inner.recv_task.unparked = false;
            return TryPark::NotEmpty;
        }
        inner.recv_task.task = Some(current);
        TryPark::Parked
    }

    /// Releases one reservation, after the corresponding envelope was
    /// popped.
    fn dec_num_messages<T>(&self, inner: &mut Inner<T>)
        requires
            old(inner).num_msgs() >= 1,
        ensures
            final(inner).buffer == old(inner).buffer,
            final(inner).message_queue@ == old(inner).message_queue@,
            final(inner).parked_queue@ == old(inner).parked_queue@,
            final(inner).num_senders == old(inner).num_senders,
            final(inner).recv_task == old(inner).recv_task,
            final(inner).sender_tasks@ == old(inner).sender_tasks@,
            final(inner).is_open() == old(inner).is_open(),
            final(inner).num_msgs() == old(inner).num_msgs() - 1,
    {
        let state = decode_state(inner.state);
        let next = State { is_open: state.is_open, num_messages: state.num_messages - 1 };
        inner.state = encode_state(&next);
    }

    /// Polls the channel from the consumer's task `current`.
    ///
    /// Pops the head envelope if there is one: that pop wakes exactly one
    /// parked producer (the parked queue's head) when any is parked, and
    /// releases one reservation. The sentinel `Ready(None)` is delivered
    /// once the channel is closed and drained. On an empty open channel the
    /// consumer parks and reports `NotReady`; any pending wake-up is
    /// consumed in the process.
    pub fn poll<T>(&mut self, inner: &mut Inner<T>, current: TaskHandle) -> (r: Async<Option<T>>)
        requires
            old(inner).wf(),
        ensures
            final(inner).wf(),
            final(inner).buffer == old(inner).buffer,
            final(inner).num_senders == old(inner).num_senders,
            old(inner).message_queue@.len() == 0 && !old(inner).is_open() ==> r == Async::Ready(
                None::<T>,
            ) && final(inner).state == old(inner).state && final(inner).message_queue@ == old(inner).message_queue@ && final(inner).parked_queue@ == old(inner).parked_queue@ && final(inner).recv_task == old(inner).recv_task && final(inner).sender_tasks@ == old(inner).sender_tasks@,
            old(inner).message_queue@.len() == 0 && old(inner).is_open() ==> r is NotReady
                && final(inner).state == old(inner).state && final(inner).message_queue@ == old(inner).message_queue@ && final(inner).parked_queue@ == old(inner).parked_queue@ && final(inner).sender_tasks@ == old(inner).sender_tasks@ && final(inner).recv_task
                == (ReceiverTask { unparked: false, task: Some(current) }),
            old(inner).message_queue@.len() > 0 ==> r == Async::Ready(
                old(inner).message_queue@[0],
            ) && final(inner).message_queue@ == old(inner).message_queue@.drop_first() && final(inner).num_msgs() == old(inner).num_msgs() - 1 && final(inner).is_open() == old(inner).is_open() && final(inner).recv_task == old(inner).recv_task && (old(inner).parked_queue@.len() == 0 ==> final(inner).parked_queue@ == old(inner).parked_queue@ && final(inner).sender_tasks@ == old(inner).sender_tasks@) && (old(inner).parked_queue@.len() > 0 ==> final(inner).parked_queue@ == old(inner).parked_queue@.drop_first() && final(inner).sender_tasks@ == old(inner).sender_tasks@.update(
                old(inner).parked_queue@[0] as int,
                (SenderTask { task: None, is_parked: false }),
            )),
    {
        match self.next_message(inner) {
            Async::Ready(msg) => {
                self.unpark_one(inner);
                self.dec_num_messages(inner);
                Async::Ready(msg)
            },
            Async::NotReady => {
                match self.try_park(inner, current) {
                    TryPark::Parked => Async::NotReady,
                    TryPark::Closed => Async::Ready(None),
                    TryPark::NotEmpty => {
                        // The pending wake-up is consumed and the queue is
                        // still empty: the second attempt parks for real.
                        match self.try_park(inner, current) {
                            TryPark::Parked => Async::NotReady,
                            TryPark::Closed => Async::Ready(None),
                            TryPark::NotEmpty => {
                                proof {
                                    assert(false);
                                }
                                Async::NotReady
                            },
                        }
                    },
                }
            },
        }
    }

    /// Closes the channel: no further reservation succeeds, while the
    /// consumer can still drain every envelope already committed. Every
    /// parked producer is woken, so that it observes the closure and gets
    /// `Closed` back from its next attempt.
    pub fn close<T>(&mut self, inner: &mut Inner<T>)
        requires
            old(inner).wf(),
        ensures
            final(inner).wf(),
            !final(inner).is_open(),
            final(inner).num_msgs() == old(inner).num_msgs(),
            final(inner).buffer == old(inner).buffer,
            final(inner).message_queue@ == old(inner).message_queue@,
            final(inner).num_senders == old(inner).num_senders,
            final(inner).recv_task == old(inner).recv_task,
            final(inner).parked_queue@.len() == 0,
            final(inner).sender_tasks@.len() == old(inner).sender_tasks@.len(),
            forall|j: usize|
                j < old(inner).sender_tasks@.len() ==> #[trigger] final(inner).sender_tasks@[j as int] == (if old(inner).parked_queue@.contains(j) {
                    SenderTask { task: None, is_parked: false }
                } else {
                    old(inner).sender_tasks@[j as int]
                }),
    {
        let ghost pre = *inner;
        let state = decode_state(inner.state);
        if state.is_open {
            let next = State { is_open: false, num_messages: state.num_messages };
            inner.state = encode_state(&next);
        }
        let ghost full = pre.parked_queue@;
        let ghost mut done: int = 0;
        loop
            invariant
                0 <= done <= full.len(),
                inner.wf(),
                !inner.is_open(),
                inner.num_msgs() == pre.num_msgs(),
                inner.buffer == pre.buffer,
                inner.message_queue@ == pre.message_queue@,
                inner.num_senders == pre.num_senders,
                inner.recv_task == pre.recv_task,
                inner.sender_tasks@.len() == pre.sender_tasks@.len(),
                inner.parked_queue@ == full.subrange(done, full.len() as int),
                forall|j: usize|
                    j < pre.sender_tasks@.len() ==> #[trigger] inner.sender_tasks@[j as int] == (
                    if full.subrange(0, done).contains(j) {
                        SenderTask { task: None, is_parked: false }
                    } else {
                        pre.sender_tasks@[j as int]
                    }),
            ensures
                inner.parked_queue@.len() == 0,
            decreases full.len() - done,
        {
            match inner.parked_queue.pop() {
                PopResult::Data(id) => {
                    proof {
                        assert(inner.parked_queue@ =~= full.subrange(done + 1, full.len() as int));
                        assert(full.subrange(0, done + 1) =~= full.subrange(0, done).push(
                            full[done],
                        ));
                    }
                    let mut t = inner.sender_tasks[id];
                    t.notify();
                    inner.sender_tasks.set(id, t);
                    proof {
                        done = done + 1;
                        let s_old = full.subrange(0, done - 1);
                        let s_new = full.subrange(0, done);
                        assert(s_new =~= s_old.push(id));
                        assert(s_new[done - 1] == id);
                        assert forall|j: usize|
                            j < pre.sender_tasks@.len() && j != id implies #[trigger] s_new.contains(
                            j,
                        ) == s_old.contains(j) by {
                            if s_old.contains(j) {
                                let k = choose|k: int| 0 <= k < s_old.len() && s_old[k] == j;
                                assert(s_new[k] == j);
                                assert(s_new.contains(j));
                            }
                            if s_new.contains(j) {
                                let k = choose|k: int| 0 <= k < s_new.len() && s_new[k] == j;
                                if k < done - 1 {
                                    assert(s_old[k] == j);
                                    assert(s_old.contains(j));
                                } else {
                                    assert(s_new[done - 1] == id);
                                }
                            }
                        }
                    }
                },
                PopResult::Empty => {
                    break;
                },
            }
        }
        proof {
            assert(full.subrange(0, done) =~= full);
        }
    }

    /// Re-opens the channel if it was closed and creates a fresh producer
    /// handle on it, with its own parking slot. The producer count may
    /// never reach the capacity left above the buffer.
    pub fn sender<T>(&mut self, inner: &mut Inner<T>) -> (tx: AddressSender)
        requires
            old(inner).wf(),
            old(inner).num_senders < MAX_CAPACITY - old(inner).buffer,
        ensures
            final(inner).wf(),
            tx.wf(*final(inner)),
            !tx.maybe_parked,
            !tx.is_blocked(*final(inner)),
            tx.task_id == old(inner).sender_tasks@.len(),
            final(inner).is_open(),
            final(inner).num_msgs() == old(inner).num_msgs(),
            final(inner).buffer == old(inner).buffer,
            final(inner).message_queue@ == old(inner).message_queue@,
            final(inner).parked_queue@ == old(inner).parked_queue@,
            final(inner).recv_task == old(inner).recv_task,
            final(inner).num_senders == old(inner).num_senders + 1,
            final(inner).sender_tasks@ == old(inner).sender_tasks@.push(
                (SenderTask { task: None, is_parked: false }),
            ),
    {
        let state = decode_state(inner.state);
        if !state.is_open {
            let next = State { is_open: true, num_messages: state.num_messages };
            inner.state = encode_state(&next);
        }
        inner.num_senders = inner.num_senders + 1;
        let task_id = inner.sender_tasks.len();
        inner.sender_tasks.push(SenderTask::new());
        AddressSender { task_id, maybe_parked: false }
    }

    /// Releases the consumer handle: closes the channel, wakes every parked
    /// producer, then drains the message queue, releasing the reservation of
    /// every drained envelope and dropping any attached reply channel.
    pub fn release<T>(self, inner: &mut Inner<T>)
        requires
            old(inner).wf(),
        ensures
            final(inner).wf(),
            !final(inner).is_open(),
            final(inner).num_msgs() == 0,
            final(inner).message_queue@.len() == 0,
            final(inner).parked_queue@.len() == 0,
            final(inner).buffer == old(inner).buffer,
            final(inner).num_senders == old(inner).num_senders,
            final(inner).recv_task == old(inner).recv_task,
    {
        let mut this = self;
        this.close(inner);
        let ghost mid = *inner;
        while inner.message_queue.len() > 0
            invariant
                inner.wf(),
                !inner.is_open(),
                inner.parked_queue@.len() == 0,
                inner.buffer == mid.buffer,
                inner.num_senders == mid.num_senders,
                inner.recv_task == mid.recv_task,
                inner.sender_tasks@ == mid.sender_tasks@,
            decreases inner.message_queue@.len(),
        {
            match this.next_message(inner) {
                Async::Ready(_msg) => {
                    this.dec_num_messages(inner);
                },
                Async::NotReady => {},
            }
        }
    }
}

/// Creates a channel with the given soft capacity (`0` means unbounded),
/// returning the first producer handle, the consumer handle and the shared
/// state. The channel starts open, with no messages, one producer and no
/// parked producer.
pub fn channel<T>(buffer: u64) -> (r: (AddressSender, AddressReceiver, Inner<T>))
    requires
        buffer < MAX_BUFFER,
    ensures
        r.2.wf(),
        r.0.wf(r.2),
        r.2.buffer == buffer,
        r.2.is_open(),
        r.2.num_msgs() == 0,
        r.2.message_queue@.len() == 0,
        r.2.parked_queue@.len() == 0,
        r.2.num_senders == 1,
        r.2.sender_tasks@.len() == 1,
        r.2.sender_tasks@[0] == (SenderTask { task: None, is_parked: false }),
        r.2.recv_task == (ReceiverTask { unparked: false, task: None }),
        r.0.task_id == 0,
        !r.0.maybe_parked,
{
    let mut sender_tasks: Vec<SenderTask> = Vec::new();
    sender_tasks.push(SenderTask::new());
    let inner = Inner {
        buffer,
        state: INIT_STATE,
        message_queue: Queue::new(),
        parked_queue: Queue::new(),
        num_senders: 1,
        recv_task: ReceiverTask { unparked: false, task: None },
        sender_tasks,
    };
    let tx = AddressSender { task_id: 0, maybe_parked: false };
    let rx = AddressReceiver {};
    (tx, rx, inner)
}

/// Count conservation. Every successful send (the terminating sentinel
/// included) reserves one message and enqueues one envelope in the same
/// step, and every pop of an envelope dequeues it and releases one
/// reservation in the same step; so whenever the channel is at rest, the
/// tracked count equals the number of successful sends minus the number of
/// pops — exactly the envelopes still resident in the message queue.
pub proof fn lemma_count_conservation<T>(inner: Inner<T>)
    requires
        inner.wf(),
    ensures
        inner.num_msgs() == inner.message_queue@.len(),
{
}

/// No phantom capacity. A back-pressured producer only commits an envelope
/// while the count is below the buffer, so after any back-pressured send
/// the envelopes resident in the message queue never outnumber
/// `buffer + num_senders`, the buffer plus the producers' guaranteed slots.
pub proof fn lemma_no_phantom_capacity<T>(inner: Inner<T>)
    requires
        inner.wf(),
        inner.buffer > 0,
        inner.num_msgs() <= inner.buffer,
    ensures
        inner.message_queue@.len() <= inner.buffer + inner.num_senders,
{
}

/// FIFO delivery. Two envelopes committed one after the other land at
/// increasing positions of the message queue, and every pop takes the head
/// and leaves the tail; so once the queue ahead of them is cleared, the
/// next pop yields the first envelope and only the pop after that yields
/// the second.
pub proof fn lemma_fifo<T>(q: Seq<Option<T>>, a: T, b: T)
    ensures
        q.push(Some(a)).push(Some(b)).skip(q.len() as int).first() == Some(a),
        q.push(Some(a)).push(Some(b)).skip(q.len() as int).drop_first().first() == Some(b),
{
    let q2 = q.push(Some(a)).push(Some(b));
    assert(q2.skip(q.len() as int)[0] == q2[q.len() as int]);
    assert(q2.skip(q.len() as int).drop_first()[0] == q2[q.len() as int + 1]);
}

/// Producer ceiling. A well-formed channel never holds more producer
/// handles than the capacity left above the buffer: creating a handle
/// (`clone_handle`, `sender`) demands a free slot below that ceiling and
/// adds one producer, and `release` only lowers the count.
pub proof fn lemma_sender_ceiling<T>(inner: Inner<T>)
    requires
        inner.wf(),
    ensures
        inner.num_senders <= MAX_CAPACITY - inner.buffer,
{
}

} // verus!
