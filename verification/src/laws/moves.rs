//! What each part of the state of a controller is after a move.

use vstd::prelude::*;

use crate::listener_tasks::{slot, ListenerTasksView};
use crate::model::{ControllerView, Move};
use crate::states::{Verification, VerificationRequestState};

verus! {

/// A new controller belongs to its user, and there is nothing else to it.
pub proof fn law_new_controller_is_idle<D: ?Sized, R, S, Q, H>(own_user_id: Seq<char>)
    ensures
        ({
            let state = ControllerView::<D, R, S, Q, H>::initial(own_user_id);
            &&& state.own_user_id == own_user_id
            &&& state.delegate is None
            &&& state.verification_request is None
            &&& state.sas_verification is None
            &&& state.qr_verification is None
            &&& state.listener_tasks.request is None
            &&& state.listener_tasks.concrete is None
            &&& !state.locally_starting_sas
        }),
{
}

/// The user of a controller never changes, and its delegate only where one is attached or detached.
pub proof fn law_user_and_delegate_stay<D: ?Sized, R, S, Q, H>(
    state: ControllerView<D, R, S, Q, H>,
    step: Move<D, R, S, Q, H>,
)
    ensures
        state.after(step).own_user_id == state.own_user_id,
        step matches Move::SetDelegate(delegate) ==> state.after(step).delegate == delegate,
        !(step is SetDelegate) ==> state.after(step).delegate == state.delegate,
{
}

/// The request at hand is the one whose flow began last.
pub proof fn law_request_is_that_of_the_last_flow<D: ?Sized, R, S, Q, H>(
    state: ControllerView<D, R, S, Q, H>,
    step: Move<D, R, S, Q, H>,
)
    ensures
        step matches Move::BeginFlow(request) ==> state.after(step).verification_request == Some(
            request,
        ),
        !(step is BeginFlow) ==> state.after(step).verification_request
            == state.verification_request,
{
}

/// The short auth string verification at hand is the one that the request turned into last, and a
/// new flow has none.
pub proof fn law_sas_is_the_one_that_was_seen_last<D: ?Sized, R, S, Q, H>(
    state: ControllerView<D, R, S, Q, H>,
    step: Move<D, R, S, Q, H>,
)
    ensures
        step is BeginFlow ==> state.after(step).sas_verification is None,
        step matches Move::SeeRequestChange(
            VerificationRequestState::Transitioned { verification: Verification::SasV1(sas) },
        ) ==> state.after(step).sas_verification == Some(sas),
        !(step is BeginFlow) && !(step matches Move::SeeRequestChange(
            VerificationRequestState::Transitioned { verification: Verification::SasV1(_) },
        )) ==> state.after(step).sas_verification == state.sas_verification,
{
}

/// The QR code verification at hand is the one that was shown or scanned last. A new flow and a new
/// scan have none.
pub proof fn law_qr_is_the_one_that_was_adopted_last<D: ?Sized, R, S, Q, H>(
    state: ControllerView<D, R, S, Q, H>,
    step: Move<D, R, S, Q, H>,
)
    ensures
        step is BeginFlow || step is BeginScan ==> state.after(step).qr_verification is None,
        step matches Move::AdoptQr(qr) ==> state.after(step).qr_verification == Some(qr),
        !(step is BeginFlow || step is BeginScan || step is AdoptQr) ==> state.after(
            step,
        ).qr_verification == state.qr_verification,
{
}

/// The request listener is the one that was installed last. It goes when a QR code verification
/// takes over, when a flow begins and when the controller goes away, and stays at every other move.
pub proof fn law_request_listener_stays_until_it_is_replaced<D: ?Sized, R, S, Q, H>(
    state: ControllerView<D, R, S, Q, H>,
    step: Move<D, R, S, Q, H>,
)
    ensures
        step matches Move::InstallRequestListener(handle) ==> state.after(
            step,
        ).listener_tasks.request == Some(handle),
        step is InstallQrListener || step is BeginFlow || step is AbortAll ==> state.after(
            step,
        ).listener_tasks.request is None,
        !(step is InstallRequestListener || step is InstallQrListener || step is BeginFlow
            || step is AbortAll) ==> state.after(step).listener_tasks.request
            == state.listener_tasks.request,
{
}

/// The concrete listener is the one that was installed last. It goes when a scan or a flow begins
/// and when the controller goes away, and stays at every other move.
pub proof fn law_concrete_listener_stays_until_it_is_replaced<D: ?Sized, R, S, Q, H>(
    state: ControllerView<D, R, S, Q, H>,
    step: Move<D, R, S, Q, H>,
)
    ensures
        step matches Move::InstallSasListener(handle) ==> state.after(
            step,
        ).listener_tasks.concrete == Some(handle),
        step matches Move::InstallQrListener(handle) ==> state.after(step).listener_tasks.concrete
            == Some(handle),
        step is BeginScan || step is BeginFlow || step is AbortAll ==> state.after(
            step,
        ).listener_tasks.concrete is None,
        !(step is InstallSasListener || step is InstallQrListener || step is BeginScan
            || step is BeginFlow || step is AbortAll) ==> state.after(step).listener_tasks.concrete
            == state.listener_tasks.concrete,
{
}

/// What is aborted with a move is what the move drops: the request listener that is replaced or
/// goes, and the concrete listener that is replaced or goes, each once and nothing else. Of two,
/// the concrete listener comes first where a QR code verification takes over, and the request
/// listener where all go.
pub proof fn law_dropped_listeners_are_aborted<D: ?Sized, R, S, Q, H>(
    state: ControllerView<D, R, S, Q, H>,
    step: Move<D, R, S, Q, H>,
)
    ensures
        ({
            let aborted = state.aborts(step);
            let request_goes = state.listener_tasks.request is Some && (
            step is InstallRequestListener || step is InstallQrListener || step is BeginFlow
                || step is AbortAll);
            let concrete_goes = state.listener_tasks.concrete is Some && (step is InstallSasListener
                || step is InstallQrListener || step is BeginScan || step is BeginFlow
                || step is AbortAll);
            &&& !request_goes && !concrete_goes ==> aborted.len() == 0
            &&& request_goes && !concrete_goes ==> aborted.len() == 1 && Some(aborted[0])
                == state.listener_tasks.request
            &&& concrete_goes && !request_goes ==> aborted.len() == 1 && Some(aborted[0])
                == state.listener_tasks.concrete
            &&& request_goes && concrete_goes && step is InstallQrListener ==> aborted.len() == 2
                && Some(aborted[0]) == state.listener_tasks.concrete && Some(aborted[1])
                == state.listener_tasks.request
            &&& request_goes && concrete_goes && !(step is InstallQrListener) ==> aborted.len() == 2
                && Some(aborted[0]) == state.listener_tasks.request && Some(aborted[1])
                == state.listener_tasks.concrete
        }),
{
}

/// The handles that are held, listed: that of the request listener, then that of the concrete
/// listener, and no other. A slot lists its handle.
pub proof fn law_held_handles_are_listed<H>(tasks: ListenerTasksView<H>)
    ensures
        tasks.request is None && tasks.concrete is None ==> tasks.handles().len() == 0,
        tasks.request is Some ==> tasks.handles().len() >= 1 && Some(tasks.handles()[0])
            == tasks.request,
        tasks.concrete is Some ==> tasks.handles().len() >= 1 && Some(tasks.handles().last())
            == tasks.concrete,
        tasks.request is Some && tasks.concrete is Some <==> tasks.handles().len() == 2,
        tasks.request is None || tasks.concrete is None ==> tasks.handles().len() <= 1,
        tasks.request is None ==> slot(tasks.request).len() == 0,
        tasks.request is Some ==> slot(tasks.request).len() == 1 && Some(slot(tasks.request)[0])
            == tasks.request,
        ListenerTasksView::<H>::empty().request is None,
        ListenerTasksView::<H>::empty().concrete is None,
{
}

} // verus!
