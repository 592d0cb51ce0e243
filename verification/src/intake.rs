//! The way into the queue: a request is validated first, and only a
//! well-formed one is offered to the queue.

use crate::queue::ReservationQueue;
use crate::submitter::ReservationError;
use crate::validate::{
    validate, validation_of, ReservationByPaymasterRequest, ValidatedReservation,
};
use vstd::prelude::*;

verus! {

/// A validated request together with the handle its answer goes to.
pub struct QueueEntry<H> {
    pub reservation: ValidatedReservation,
    pub response_handle: H,
}

/// A request that was turned away: why, and the handle to tell its sender.
pub struct Rejection<H> {
    pub error: ReservationError,
    pub response_handle: H,
}

/// Validates a request and, if it is well formed, puts it behind the
/// requests that wait.
///
/// A malformed request is rejected with its validation error and leaves the
/// queue as it was. A well-formed request that finds the queue full is
/// rejected as such, again with the queue as it was. Either way the handle
/// comes back to the caller.
pub fn accept_request<H>(
    queue: &mut ReservationQueue<QueueEntry<H>>,
    request: &ReservationByPaymasterRequest,
    response_handle: H,
) -> (outcome: Result<(), Rejection<H>>)
    ensures
        final(queue).capacity() == old(queue).capacity(),
        old(queue).well_formed() ==> final(queue).well_formed(),
        match validation_of(*request) {
            Err(error) => {
                &&& outcome == Err::<(), Rejection<H>>(
                    Rejection { error: ReservationError::Validation { error }, response_handle },
                )
                &&& final(queue)@ == old(queue)@
            },
            Ok(reservation) => if old(queue)@.len() >= old(queue).capacity() {
                &&& outcome == Err::<(), Rejection<H>>(
                    Rejection { error: ReservationError::QueueFull, response_handle },
                )
                &&& final(queue)@ == old(queue)@
            } else {
                &&& outcome is Ok
                &&& final(queue)@.len() == old(queue)@.len() + 1
                &&& final(queue)@.drop_last() == old(queue)@
                &&& final(queue)@.last().reservation@ == reservation
                &&& final(queue)@.last().response_handle == response_handle
            },
        },
{
    let reservation = match validate(request) {
        Ok(reservation) => reservation,
        Err(error) => {
            return Err(
                Rejection { error: ReservationError::Validation { error }, response_handle },
            );
        },
    };
    match queue.enqueue(QueueEntry { reservation, response_handle }) {
        Ok(()) => {
            assert(queue@.drop_last() =~= old(queue)@);
            Ok(())
        },
        Err(full) => Err(
            Rejection {
                error: ReservationError::QueueFull,
                response_handle: full.entry.response_handle,
            },
        ),
    }
}

} // verus!
