//! The tasks of a worker of a block device, one step at a time. A task waits for
//! an event, and what it does then is decided here.
use crate::block_common;
use crate::block_common::{DiskControlResult, ExecuteError};
use crate::text;
use vstd::prelude::*;

verus! {

/// How many tasks serve one queue of [`crate::block::Block`].
pub const TASKS_PER_QUEUE: usize = 2;

/// What a task for a queue waits for.
#[derive(Clone, Copy, Debug)]
pub enum QueueEvent {
    /// There is a chain, or the queue failed.
    Next(bool),
    /// A request was handled, with so many bytes for the guest.
    Handled(Result<usize, ExecuteError>),
}

/// What a task for a queue does.
#[derive(Clone, Copy, Debug, PartialEq, Eq, Structural)]
pub enum QueueAction {
    /// Handle the request of the chain.
    Process,
    /// Give the chain back with so many bytes, interrupt the guest, and wait for
    /// the next one.
    Complete { used: u32 },
    /// The task ends.
    Stop,
}

/// One step of a task that serves a queue of [`crate::block::Block`]: a request
/// that failed is given back without bytes.
pub fn handle_queue(event: QueueEvent) -> (r: QueueAction)
    ensures
        r == (match event {
            QueueEvent::Next(true) => QueueAction::Process,
            QueueEvent::Next(false) => QueueAction::Stop,
            QueueEvent::Handled(Ok(len)) => QueueAction::Complete { used: len as u32 },
            QueueEvent::Handled(Err(_)) => QueueAction::Complete { used: 0 },
        }),
{
    match event {
        QueueEvent::Next(available) => {
            if available {
                QueueAction::Process
            } else {
                QueueAction::Stop
            }
        },
        QueueEvent::Handled(result) => QueueAction::Complete {
            used: block_common::used_length(result),
        },
    }
}

/// What a task for a queue of [`crate::block_async::BlockAsync`] waits for.
#[derive(Clone, Copy, Debug, PartialEq, Eq, Structural)]
pub enum ChainEvent {
    /// The event of the queue was read, or could not be.
    Signalled(bool),
    /// A chain was taken from the queue, or there is none.
    Popped(bool),
}

/// What a task for a queue of [`crate::block_async::BlockAsync`] does.
#[derive(Clone, Copy, Debug, PartialEq, Eq, Structural)]
pub enum ChainAction {
    /// Wait for the event of the queue.
    Wait,
    /// Take a chain from the queue.
    Pop,
    /// Start a task for the chain, then take the next one.
    SpawnAndPop,
}

/// One step of a task that serves a queue of
/// [`crate::block_async::BlockAsync`]: once there is an event, all chains are
/// taken.
pub fn handle_queue_async(event: ChainEvent) -> (r: ChainAction)
    ensures
        r == (match event {
            ChainEvent::Signalled(true) => ChainAction::Pop,
            ChainEvent::Signalled(false) => ChainAction::Wait,
            ChainEvent::Popped(true) => ChainAction::SpawnAndPop,
            ChainEvent::Popped(false) => ChainAction::Wait,
        }),
{
    match event {
        ChainEvent::Signalled(ok) => {
            if ok {
                ChainAction::Pop
            } else {
                ChainAction::Wait
            }
        },
        ChainEvent::Popped(some) => {
            if some {
                ChainAction::SpawnAndPop
            } else {
                ChainAction::Wait
            }
        },
    }
}

/// A request of the monitor.
#[derive(Clone, Copy, Debug, PartialEq, Eq, Structural)]
pub enum DiskControlCommand {
    /// Change the size of the disk.
    Resize { new_size: u64 },
}

/// What the task for control requests waits for.
#[derive(Clone, Copy, Debug, PartialEq, Eq, Structural)]
pub enum ControlEvent {
    /// The task starts. There may be no connection; where there is one, it may not
    /// be possible to wait for its requests.
    Started { present: bool, receiver: bool },
    /// A request came in, or the connection failed.
    Received(Option<DiskControlCommand>),
    /// The disk was resized.
    Resized(DiskControlResult),
    /// The answer was sent, or could not be.
    Sent(bool),
}

/// What the task for control requests does.
#[derive(Clone, Copy, Debug, PartialEq, Eq, Structural)]
pub enum ControlAction {
    /// Wait for the next request.
    Wait,
    /// Wait for ever.
    Park,
    Resize { new_size: u64 },
    Send(DiskControlResult),
    /// Tell the guest that the configuration has changed, and wait.
    SignalConfigChanged,
    /// The task ends with this error.
    Fail(ExecuteError),
}

/// The task for control requests.
#[derive(Clone, Copy, Debug, PartialEq, Eq, Structural)]
pub struct ControlTask {
    /// Whether the guest is told of a request that failed, too.
    pub signals_failures: bool,
    /// The answer to the request at hand.
    pub response: Option<DiskControlResult>,
}

impl ControlTask {
    pub fn new(signals_failures: bool) -> (r: Self)
        ensures
            r == (ControlTask { signals_failures, response: None }),
    {
        ControlTask { signals_failures, response: None }
    }

    /// One step of the task: a request is carried out, answered, and then the
    /// guest is told. Without a connection there is nothing to do, but the task does
    /// not end.
    pub fn next(&mut self, event: ControlEvent) -> (r: ControlAction)
        ensures
            r == (match event {
                ControlEvent::Started { present, receiver } => if !present {
                    ControlAction::Park
                } else if !receiver {
                    ControlAction::Fail(ExecuteError::CreatingMessageReceiver)
                } else {
                    ControlAction::Wait
                },
                ControlEvent::Received(Some(DiskControlCommand::Resize { new_size })) =>
                    ControlAction::Resize { new_size },
                ControlEvent::Received(None) => ControlAction::Fail(ExecuteError::ReceivingCommand),
                ControlEvent::Resized(resp) => ControlAction::Send(resp),
                ControlEvent::Sent(false) => ControlAction::Fail(ExecuteError::SendingResponse),
                ControlEvent::Sent(true) => if old(self).signals_failures || old(self).response
                    == Some(DiskControlResult::Done) {
                    ControlAction::SignalConfigChanged
                } else {
                    ControlAction::Wait
                },
            }),
            *final(self) == (ControlTask {
                response: match event {
                    ControlEvent::Started { present: _, receiver: _ } => old(self).response,
                    ControlEvent::Received(_) => old(self).response,
                    ControlEvent::Resized(resp) => Some(resp),
                    ControlEvent::Sent(_) => None,
                },
                ..*old(self)
            }),
    {
        match event {
            ControlEvent::Started { present, receiver } => {
                if !present {
                    ControlAction::Park
                } else if !receiver {
                    ControlAction::Fail(ExecuteError::CreatingMessageReceiver)
                } else {
                    ControlAction::Wait
                }
            },
            ControlEvent::Received(Some(DiskControlCommand::Resize { new_size })) => {
                ControlAction::Resize { new_size }
            },
            ControlEvent::Received(None) => ControlAction::Fail(ExecuteError::ReceivingCommand),
            ControlEvent::Resized(resp) => {
                self.response = Some(resp);
                ControlAction::Send(resp)
            },
            ControlEvent::Sent(ok) => {
                let done = match self.response {
                    Some(DiskControlResult::Done) => true,
                    _ => false,
                };
                self.response = None;
                if !ok {
                    ControlAction::Fail(ExecuteError::SendingResponse)
                } else if self.signals_failures || done {
                    ControlAction::SignalConfigChanged
                } else {
                    ControlAction::Wait
                }
            },
        }
    }
}

/// Errors of the tasks that serve no request.
#[derive(Clone, Copy, Debug, PartialEq, Eq, Structural)]
pub enum OtherError {
    AsyncResampleCreate,
    CloneResampleEvent,
    FlushTimer,
    FsyncDisk,
    ReadResampleEvent,
}

impl OtherError {
    pub open spec fn label(self) -> Seq<char> {
        match self {
            OtherError::AsyncResampleCreate => "couldn't create an async resample event: "@,
            OtherError::CloneResampleEvent => "couldn't clone the resample event: "@,
            OtherError::FlushTimer => "couldn't get a value from a timer for flushing: "@,
            OtherError::FsyncDisk => "failed to fsync the disk: "@,
            OtherError::ReadResampleEvent => "couldn't read the resample event: "@,
        }
    }

    /// The message for the error; `cause` is the text of the error below.
    pub fn message(&self, cause: &str) -> (r: String)
        ensures
            r@ == self.label() + cause@,
    {
        match self {
            OtherError::AsyncResampleCreate => text::joined(
                "couldn't create an async resample event: ",
                cause,
            ),
            OtherError::CloneResampleEvent => text::joined(
                "couldn't clone the resample event: ",
                cause,
            ),
            OtherError::FlushTimer => text::joined(
                "couldn't get a value from a timer for flushing: ",
                cause,
            ),
            OtherError::FsyncDisk => text::joined("failed to fsync the disk: ", cause),
            OtherError::ReadResampleEvent => text::joined(
                "couldn't read the resample event: ",
                cause,
            ),
        }
    }
}

/// Why there is no flush timer.
#[derive(Clone, Copy, Debug, PartialEq, Eq, Structural)]
pub enum TimerError {
    TimerFdCreate,
    AsyncTimerCreate,
}

impl TimerError {
    pub open spec fn label(self) -> Seq<char> {
        match self {
            TimerError::TimerFdCreate => "couldn't create a timer FD: "@,
            TimerError::AsyncTimerCreate => "couldn't create an async timer: "@,
        }
    }

    /// The message for the error; `cause` is the text of the error below.
    pub fn message(&self, cause: &str) -> (r: String)
        ensures
            r@ == self.label() + cause@,
    {
        match self {
            TimerError::TimerFdCreate => text::joined("couldn't create a timer FD: ", cause),
            TimerError::AsyncTimerCreate => text::joined(
                "couldn't create an async timer: ",
                cause,
            ),
        }
    }

    /// The error of a worker that gets no flush timer.
    pub fn worker_error(&self, cause: &str) -> (r: String)
        ensures
            r@ == "Failed to create the flush timer: "@ + (self.label() + cause@),
    {
        let message = self.message(cause);
        text::joined("Failed to create the flush timer: ", message.as_str())
    }
}

/// What the task for the flush timer waits for.
#[derive(Clone, Copy, Debug, PartialEq, Eq, Structural)]
pub enum FlushEvent {
    /// The timer has run out, or could not be waited for.
    Expired(bool),
    /// The disk was flushed, or could not be.
    Flushed(bool),
}

/// What the task for the flush timer does.
#[derive(Clone, Copy, Debug, PartialEq, Eq, Structural)]
pub enum FlushAction {
    /// Wait for the timer.
    Wait,
    /// Flush the disk.
    Sync,
    /// The task ends, with an error if there is one.
    Stop(Option<OtherError>),
}

/// One step of the flush task of [`crate::block::Block`]: the disk is flushed
/// each time the timer runs out, and a disk that fails is left alone.
pub fn flush_timer(event: FlushEvent, armed: &mut bool) -> (r: FlushAction)
    ensures
        r == (match event {
            FlushEvent::Expired(true) => FlushAction::Sync,
            FlushEvent::Expired(false) => FlushAction::Stop(None),
            FlushEvent::Flushed(_) => FlushAction::Wait,
        }),
        *final(armed) == (*old(armed) && event != FlushEvent::Expired(true)),
{
    match event {
        FlushEvent::Expired(ok) => {
            if ok {
                *armed = false;
                FlushAction::Sync
            } else {
                FlushAction::Stop(None)
            }
        },
        FlushEvent::Flushed(_) => FlushAction::Wait,
    }
}

/// One step of the flush task of [`crate::block_async::BlockAsync`]: the disk is
/// flushed if the timer is armed. The timer is free before the flush starts, so
/// that what is written from then on is flushed as well.
pub fn flush_disk(event: FlushEvent, armed: &mut bool) -> (r: FlushAction)
    ensures
        r == (match event {
            FlushEvent::Expired(true) => if *old(armed) {
                FlushAction::Sync
            } else {
                FlushAction::Wait
            },
            FlushEvent::Expired(false) => FlushAction::Stop(Some(OtherError::FlushTimer)),
            FlushEvent::Flushed(true) => FlushAction::Wait,
            FlushEvent::Flushed(false) => FlushAction::Stop(Some(OtherError::FsyncDisk)),
        }),
        *final(armed) == (*old(armed) && event != FlushEvent::Expired(true)),
{
    match event {
        FlushEvent::Expired(ok) => {
            if !ok {
                FlushAction::Stop(Some(OtherError::FlushTimer))
            } else if *armed {
                *armed = false;
                FlushAction::Sync
            } else {
                FlushAction::Wait
            }
        },
        FlushEvent::Flushed(ok) => {
            if ok {
                FlushAction::Wait
            } else {
                FlushAction::Stop(Some(OtherError::FsyncDisk))
            }
        },
    }
}

/// What the task for interrupts waits for.
#[derive(Clone, Copy, Debug, PartialEq, Eq, Structural)]
pub enum ResampleEvent {
    /// The task starts. There may be no resample event; where there is one, it
    /// may not be possible to clone it, or to wait for it.
    Started { present: bool, cloned: bool, created: bool },
    /// The event was read, or could not be.
    Read(bool),
}

/// What the task for interrupts does.
#[derive(Clone, Copy, Debug, PartialEq, Eq, Structural)]
pub enum ResampleAction {
    /// Wait for the event.
    Wait,
    /// Check the interrupt again, and wait.
    Resample,
    /// Wait for ever.
    Park,
    /// The task ends.
    Stop,
    /// The task ends with this error.
    Fail(OtherError),
}

/// One step of the task of [`crate::block::Block`] that checks the interrupt again
/// each time the resample event was read. An event that cannot be read ends the
/// task quietly.
pub fn handle_irq_resample(read: bool) -> (r: ResampleAction)
    ensures
        r == (if read {
            ResampleAction::Resample
        } else {
            ResampleAction::Stop
        }),
{
    if read {
        ResampleAction::Resample
    } else {
        ResampleAction::Stop
    }
}

/// One step of the task of [`crate::block_async::BlockAsync`] that checks the
/// interrupt again when it is asked to. Without a resample event there is nothing
/// to do, but the task does not end; an event that fails is an error.
pub fn handle_irq_resample_async(event: ResampleEvent) -> (r: ResampleAction)
    ensures
        r == (match event {
            ResampleEvent::Started { present, cloned, created } => if !present {
                ResampleAction::Park
            } else if !cloned {
                ResampleAction::Fail(OtherError::CloneResampleEvent)
            } else if !created {
                ResampleAction::Fail(OtherError::AsyncResampleCreate)
            } else {
                ResampleAction::Wait
            },
            ResampleEvent::Read(true) => ResampleAction::Resample,
            ResampleEvent::Read(false) => ResampleAction::Fail(OtherError::ReadResampleEvent),
        }),
{
    match event {
        ResampleEvent::Started { present, cloned, created } => {
            if !present {
                ResampleAction::Park
            } else if !cloned {
                ResampleAction::Fail(OtherError::CloneResampleEvent)
            } else if !created {
                ResampleAction::Fail(OtherError::AsyncResampleCreate)
            } else {
                ResampleAction::Wait
            }
        },
        ResampleEvent::Read(ok) => {
            if ok {
                ResampleAction::Resample
            } else {
                ResampleAction::Fail(OtherError::ReadResampleEvent)
            }
        },
    }
}

} // verus!
