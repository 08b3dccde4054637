//! The state of the controller and what its listeners make of a change, as mathematics.

use std::sync::Arc;
use vstd::prelude::*;

use crate::data::{data_to_compare, SessionVerificationQrState, VerificationMethod};
use crate::delegate::CallbackView;
use crate::error::{plain_error, ClientError};
use crate::listener_tasks::{slot, ListenerTasksView};
use crate::states::{
    FlowStatus, QrVerificationState, SasState, Verification, VerificationRequestState,
};
use crate::steps::{
    fails_with, HandoffNext, Handover, Listener, ListenerNext, RequestListenerNext,
};

verus! {

/// The state of a controller.
pub struct ControllerView<D: ?Sized, R, S, Q, H> {
    /// The user whose client this is.
    pub own_user_id: Seq<char>,
    pub delegate: Option<Arc<D>>,
    /// The request of the ongoing flow, or of the last one.
    pub verification_request: Option<R>,
    /// The short auth string verification that the request turned into.
    pub sas_verification: Option<S>,
    /// The QR code verification that the request turned into.
    pub qr_verification: Option<Q>,
    pub listener_tasks: ListenerTasksView<H>,
    /// Whether we have started a short auth string verification that the request listener has
    /// not seen yet.
    pub locally_starting_sas: bool,
}

impl<D: ?Sized, R, S, Q, H> ControllerView<D, R, S, Q, H> {
    /// The state of a new controller.
    pub open spec fn initial(own_user_id: Seq<char>) -> Self {
        ControllerView {
            own_user_id,
            delegate: None,
            verification_request: None,
            sas_verification: None,
            qr_verification: None,
            listener_tasks: ListenerTasksView::empty(),
            locally_starting_sas: false,
        }
    }

    /// Whether a new flow can begin, where `ongoing` is the status of the request at hand: there
    /// is no request, or its flow has ended.
    pub open spec fn can_begin_flow(self, ongoing: FlowStatus) -> bool {
        self.verification_request is None || !ongoing.is_ongoing()
    }

    /// What making `request` the ongoing one, where `ongoing` is the status of the request at
    /// hand, leads to: the state `post` and the result `result`. If a flow can begin, it does, all
    /// listeners are aborted and one for the new request is asked for; else nothing changes.
    pub open spec fn begins_flow(
        self,
        post: Self,
        request: R,
        ongoing: FlowStatus,
        result: Result<Handover<H>, ClientError>,
    ) -> bool {
        if self.can_begin_flow(ongoing) {
            &&& post == self.after(Move::BeginFlow(request))
            &&& result matches Ok(handover) && handover.abort@ == self.aborts(Move::BeginFlow(request))
                && handover.listen == Listener::Request
        } else {
            &&& post == self
            &&& fails_with(result, plain_error("There is another verification flow ongoing."@))
        }
    }

    /// The state after a move.
    pub open spec fn after(self, step: Move<D, R, S, Q, H>) -> Self {
        match step {
            Move::SetDelegate(delegate) => ControllerView { delegate, ..self },
            Move::BeginFlow(request) => ControllerView {
                verification_request: Some(request),
                sas_verification: None,
                qr_verification: None,
                listener_tasks: ListenerTasksView::empty(),
                locally_starting_sas: false,
                ..self
            },
            Move::InstallRequestListener(handle) => ControllerView {
                listener_tasks: ListenerTasksView { request: Some(handle), ..self.listener_tasks },
                ..self
            },
            Move::StartSas => ControllerView { locally_starting_sas: true, ..self },
            Move::GiveUpStartingSas => ControllerView { locally_starting_sas: false, ..self },
            Move::SeeRequestChange(change) => match change {
                VerificationRequestState::Transitioned {
                    verification: Verification::SasV1(sas),
                } => ControllerView { sas_verification: Some(sas), ..self },
                _ => self,
            },
            Move::InstallSasListener(handle) => ControllerView {
                listener_tasks: ListenerTasksView {
                    concrete: Some(handle),
                    ..self.listener_tasks
                },
                locally_starting_sas: false,
                ..self
            },
            Move::AdoptQr(qr) => ControllerView { qr_verification: Some(qr), ..self },
            Move::InstallQrListener(handle) => ControllerView {
                listener_tasks: ListenerTasksView { request: None, concrete: Some(handle) },
                ..self
            },
            Move::BeginScan => ControllerView {
                qr_verification: None,
                listener_tasks: ListenerTasksView { concrete: None, ..self.listener_tasks },
                ..self
            },
            Move::AbortAll => ControllerView { listener_tasks: ListenerTasksView::empty(), ..self },
        }
    }

    /// The handles whose tasks are to be aborted with a move, in this order.
    pub open spec fn aborts(self, step: Move<D, R, S, Q, H>) -> Seq<H> {
        match step {
            Move::BeginFlow(_) | Move::AbortAll => self.listener_tasks.handles(),
            Move::InstallRequestListener(_) => slot(self.listener_tasks.request),
            Move::InstallSasListener(_) | Move::BeginScan => slot(self.listener_tasks.concrete),
            Move::InstallQrListener(_) => slot(self.listener_tasks.concrete) + slot(
                self.listener_tasks.request,
            ),
            _ => seq![],
        }
    }

    /// What the request listener does once the listener of the short auth string verification `sas`
    /// is in place: a verification that we started needs no acceptance.
    pub open spec fn handoff_next(self, sas: S) -> HandoffNext<S> {
        if self.locally_starting_sas {
            HandoffNext::Stop
        } else {
            HandoffNext::AcceptSas(sas)
        }
    }

    /// The callback that goes with it: before it is known whether accepting succeeds, there is
    /// none.
    pub open spec fn handoff_callback(self) -> Option<CallbackView> {
        if self.locally_starting_sas {
            Some(CallbackView::DidStartSasVerification)
        } else {
            None
        }
    }
}

/// A move of the controller from one state to the next.
pub enum Move<D: ?Sized, R, S, Q, H> {
    /// This delegate is attached, or the delegate is detached.
    SetDelegate(Option<Arc<D>>),
    /// The flow of this request begins, and nothing is left of the previous flow.
    BeginFlow(R),
    /// A task listens to the request under this handle.
    InstallRequestListener(H),
    /// We are starting a short auth string verification.
    StartSas,
    /// It could not be started.
    GiveUpStartingSas,
    /// The request listener has seen this change. If the request turned into a short auth string
    /// verification, that is the ongoing one.
    SeeRequestChange(VerificationRequestState<S, Q>),
    /// A task listens to the short auth string verification under this handle. That we started
    /// the verification, if we did, has now been taken into account.
    InstallSasListener(H),
    /// This is the ongoing QR code verification.
    AdoptQr(Q),
    /// A task listens to the QR code verification under this handle, and none to the request.
    InstallQrListener(H),
    /// A scan begins: the previous QR code verification is forgotten, and no task listens to a
    /// concrete verification.
    BeginScan,
    /// No task listens.
    AbortAll,
}

impl<D: ?Sized, R, S, Q, H> Move<D, R, S, Q, H> {
    /// The handle of the listener that the move installs.
    pub open spec fn installs(self) -> Option<H> {
        match self {
            Move::InstallRequestListener(handle)
            | Move::InstallSasListener(handle)
            | Move::InstallQrListener(handle) => Some(handle),
            _ => None,
        }
    }
}

/// The callback for the reply to accepting a short auth string verification.
pub open spec fn accept_callback(accepted: Result<(), ClientError>) -> CallbackView {
    if accepted is Ok {
        CallbackView::DidStartSasVerification
    } else {
        CallbackView::DidFail
    }
}

/// The methods that we offer, in this order.
pub open spec fn supported_methods() -> Seq<VerificationMethod> {
    seq![
        VerificationMethod::SasV1,
        VerificationMethod::QrCodeScanV1,
        VerificationMethod::QrCodeShowV1,
        VerificationMethod::ReciprocateV1,
    ]
}

/// Whether the request turned into a short auth string verification.
pub open spec fn turns_into_sas<S, Q>(change: VerificationRequestState<S, Q>) -> bool {
    change matches VerificationRequestState::Transitioned {
        verification: Verification::SasV1(_),
    }
}

/// The callback for a change that the request listener sees.
pub open spec fn request_callback<S, Q>(change: VerificationRequestState<S, Q>) -> Option<
    CallbackView,
> {
    match change {
        VerificationRequestState::Ready => Some(CallbackView::DidAcceptVerificationRequest),
        VerificationRequestState::Done => Some(CallbackView::DidFinish),
        VerificationRequestState::Cancelled => Some(CallbackView::DidCancel),
        _ => None,
    }
}

/// What the request listener does after a change: it stops when the flow has ended, begins the
/// handoff when the request turned into a short auth string verification, and else goes on. If
/// nobody owns the listeners any more, there is no handoff: it stops.
///
/// In particular it goes on when the request turned into a QR code verification. The listener of
/// that one takes over only when the call that shows or scans the code has succeeded.
pub open spec fn request_next<S, Q>(
    change: VerificationRequestState<S, Q>,
    has_owner: bool,
) -> RequestListenerNext<S> {
    match change {
        VerificationRequestState::Transitioned { verification: Verification::SasV1(sas) } => {
            if has_owner {
                RequestListenerNext::SpawnSasListener(sas)
            } else {
                RequestListenerNext::Stop
            }
        },
        VerificationRequestState::Done | VerificationRequestState::Cancelled => {
            RequestListenerNext::Stop
        },
        _ => RequestListenerNext::WaitForChange,
    }
}

/// The callback for a change of a short auth string verification.
pub open spec fn sas_callback(change: SasState) -> Option<CallbackView> {
    match change {
        SasState::KeysExchanged { emojis, decimals } => Some(
            CallbackView::DidReceiveVerificationData { data: data_to_compare(emojis, decimals) },
        ),
        SasState::Done => Some(CallbackView::DidFinish),
        SasState::Cancelled => Some(CallbackView::DidCancel),
        _ => None,
    }
}

/// What the listener of a short auth string verification does after a change.
pub open spec fn sas_next(change: SasState) -> ListenerNext {
    if change is Done || change is Cancelled {
        ListenerNext::Stop
    } else {
        ListenerNext::WaitForChange
    }
}

/// The callback for a change of a QR code verification.
pub open spec fn qr_callback(change: QrVerificationState) -> Option<CallbackView> {
    match change {
        QrVerificationState::Started => None,
        QrVerificationState::Scanned => Some(
            CallbackView::DidUpdateQrVerification { state: SessionVerificationQrState::Scanned },
        ),
        QrVerificationState::Reciprocated => Some(
            CallbackView::DidUpdateQrVerification {
                state: SessionVerificationQrState::Reciprocated,
            },
        ),
        QrVerificationState::Confirmed => Some(
            CallbackView::DidUpdateQrVerification { state: SessionVerificationQrState::Confirmed },
        ),
        QrVerificationState::Done => Some(CallbackView::DidFinish),
        QrVerificationState::Cancelled => Some(CallbackView::DidCancel),
    }
}

/// What the listener of a QR code verification does after a change.
pub open spec fn qr_next(change: QrVerificationState) -> ListenerNext {
    if change is Done || change is Cancelled {
        ListenerNext::Stop
    } else {
        ListenerNext::WaitForChange
    }
}

} // verus!
