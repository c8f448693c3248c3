//! Envelopes and completion handles: a job travels to the execution loop
//! with the sending half of a single-use channel, and its producer keeps the
//! receiving half.
use vstd::prelude::*;

use tokio::sync::oneshot::{Receiver, Sender};

use crate::kernel::PlanError;
use crate::worker::{GpuWork, GpuWorkType};

verus! {

/// tokio's oneshot sender, the writing half of a completion handle; opaque.
#[verifier::external_type_specification]
#[verifier::external_body]
#[verifier::reject_recursive_types(T)]
pub struct ExOneshotSender<T>(Sender<T>);

/// tokio's oneshot receiver, the half a producer keeps; opaque.
#[verifier::external_type_specification]
#[verifier::external_body]
#[verifier::reject_recursive_types(T)]
pub struct ExOneshotReceiver<T>(Receiver<T>);

/// tokio's error for a receiver whose sender was dropped unwritten; opaque.
/// Declared because the receiver's `Future` impl names it.
#[verifier::external_type_specification]
#[verifier::external_body]
pub struct ExRecvError(tokio::sync::oneshot::error::RecvError);

/// Relies on tokio::sync::oneshot::channel: a fresh, connected sender and
/// receiver. Nothing more is stated of them.
pub assume_specification<T>[ tokio::sync::oneshot::channel::<T> ]() -> (Sender<T>, Receiver<T>);

/// Relies on tokio::sync::oneshot::Sender::send: consumes the sender, and
/// when the receiver is gone hands the value back unchanged.
pub assume_specification<T>[ Sender::<T>::send ](sender: Sender<T>, t: T) -> (r: Result<(), T>)
    ensures
        r matches Err(v) ==> v == t,
;

/// One job together with the handle through which its result goes back.
#[derive(Debug)]
#[verifier::reject_recursive_types(T)]
pub struct GpuTask<T> where T: GpuWorkType {
    pub data: GpuWork<T>,
    pub return_channel: Sender<Vec<T>>,
}

impl<T> GpuTask<T> where T: GpuWorkType {
    /// Wraps `data` with a fresh completion handle; the producer keeps the
    /// returned receiver.
    pub fn new(data: GpuWork<T>) -> (r: (Self, Receiver<Vec<T>>))
        ensures
            r.0.data == data,
    {
        let (return_channel, right) = tokio::sync::oneshot::channel::<Vec<T>>();
        (GpuTask { data, return_channel }, right)
    }
}

/// A job of any supported element type, as it travels through the
/// submission channel.
#[derive(Debug)]
pub enum GPU {
    GpuU8(GpuTask<u8>),
    GpuU16(GpuTask<u16>),
    GpuU32(GpuTask<u32>),
    GpuU64(GpuTask<u64>),
    GpuI8(GpuTask<i8>),
    GpuI16(GpuTask<i16>),
    GpuI32(GpuTask<i32>),
    GpuI64(GpuTask<i64>),
}

/// Why a job produced no result.
#[derive(Debug, Clone, Copy, PartialEq, Eq, Structural)]
pub enum JobError {
    /// The compute program could not be found or compiled.
    ProgramLoad,
    /// The job could not be planned.
    Plan(PlanError),
    /// The device refused the bindings or the launch, or the read-back failed.
    Device,
}

/// How a job ended, as the execution loop records it.
#[derive(Debug, Clone, Copy, PartialEq, Eq, Structural)]
pub enum JobOutcome {
    /// The result was handed to the waiting producer.
    Delivered,
    /// The result was ready but its producer had stopped waiting; it was
    /// discarded.
    ReceiverGone,
    /// No result was produced; the producer sees its handle closed.
    Failed(JobError),
}

/// The outcome of a delivery, from whether the completion handle took the
/// result.
pub open spec fn delivery_outcome_of(taken: bool) -> JobOutcome {
    if taken {
        JobOutcome::Delivered
    } else {
        JobOutcome::ReceiverGone
    }
}

/// The outcome of a delivery from what the completion handle's `send`
/// returned: the value comes back only when the producer is gone.
pub fn delivery_outcome<T>(sent: Result<(), T>) -> (r: JobOutcome)
    ensures
        r == delivery_outcome_of(sent is Ok),
{
    match sent {
        Ok(()) => JobOutcome::Delivered,
        Err(_) => JobOutcome::ReceiverGone,
    }
}

/// Finishes a job: a result goes to the job's own completion handle, once;
/// a failure drops the handle unwritten, so the producer sees it closed.
/// Neither a failure nor an absent producer is an error of the loop.
pub fn complete<T: GpuWorkType>(task: GpuTask<T>, result: Result<Vec<T>, JobError>) -> (r:
    JobOutcome)
    ensures
        result matches Err(e) ==> r == JobOutcome::Failed(e),
        result is Ok ==> r == delivery_outcome_of(true) || r == delivery_outcome_of(false),
{
    match result {
        Ok(values) => {
            let sent = task.return_channel.send(values);
            delivery_outcome(sent)
        },
        Err(e) => JobOutcome::Failed(e),
    }
}

} // verus!
