//! The turns of the tasks that listen to the ongoing flow.

use std::sync::Arc;
use vstd::prelude::*;

use super::SessionVerificationController;
use crate::data::{SessionVerificationData, SessionVerificationQrState};
use crate::delegate::{delivery_due, delivery_view, Callback, Delivery};
use crate::error::ClientError;
use crate::model::{
    accept_callback, qr_callback, qr_next, request_callback, request_next, sas_callback, sas_next,
    Move,
};
use crate::sharing::share;
use crate::states::{QrVerificationState, SasState, Verification, VerificationRequestState};
use crate::steps::{
    HandoffNext, ListenerNext, ListenerTurn, PendingSas, RequestListenerNext, RequestListenerTurn,
    SasHandoff,
};

verus! {

impl<D: ?Sized, R, S, Q, H> SessionVerificationController<D, R, S, Q, H> {
    /// A turn of the request listener, which has seen `change`. If the request turned into a short
    /// auth string verification, that one is handed out to be listened to, and goes with the
    /// handle of its listener to [`Self::install_sas_listener`].
    ///
    /// `has_owner` says whether somebody still owns the listeners and would abort them. It matters
    /// only if the request turned into a short auth string verification: without an owner no
    /// listener is spawned for that one, it is not accepted, and the request listener stops.
    pub fn listen_to_verification_request_changes(
        &mut self,
        change: VerificationRequestState<S, Q>,
        has_owner: bool,
    ) -> (turn: RequestListenerTurn<D, S>)
        ensures
            final(self)@ == old(self)@.after(Move::SeeRequestChange(change)),
            delivery_view(turn.delivery) == delivery_due(
                old(self)@.delegate,
                request_callback(change),
            ),
            turn.next@ == request_next(change, has_owner),
    {
        match change {
            VerificationRequestState::Transitioned { verification } => match verification {
                Verification::SasV1(sas) => {
                    let sas: Arc<S> = Arc::new(sas);
                    self.sas_verification = Some(share(&sas));
                    RequestListenerTurn {
                        delivery: None,
                        next: if has_owner {
                            RequestListenerNext::SpawnSasListener(PendingSas::new(sas))
                        } else {
                            RequestListenerNext::Stop
                        },
                    }
                },
                // The listener of a QR code verification is installed once the call that shows or
                // scans the code has succeeded. Until then this listener reports how the flow
                // ends.
                Verification::QrV1(_) | Verification::Other => RequestListenerTurn {
                    delivery: None,
                    next: RequestListenerNext::WaitForChange,
                },
            },
            VerificationRequestState::Ready => RequestListenerTurn {
                delivery: self.delivery(Callback::DidAcceptVerificationRequest),
                next: RequestListenerNext::WaitForChange,
            },
            VerificationRequestState::Done => RequestListenerTurn {
                delivery: self.delivery(Callback::DidFinish),
                next: RequestListenerNext::Stop,
            },
            VerificationRequestState::Cancelled => RequestListenerTurn {
                delivery: self.delivery(Callback::DidCancel),
                next: RequestListenerNext::Stop,
            },
            VerificationRequestState::Created | VerificationRequestState::Requested { .. } => {
                RequestListenerTurn { delivery: None, next: RequestListenerNext::WaitForChange }
            },
        }
    }

    /// The request listener has spawned the listener of the short auth string verification
    /// `pending`, whose task has this handle. From here on that listener reports how the flow ends.
    ///
    /// A verification that we started needs no acceptance. One that the other side started is
    /// accepted only now that its listener is in place, since accepting may fail.
    pub fn install_sas_listener(&mut self, pending: PendingSas<S>, handle: H) -> (handoff:
        SasHandoff<D, S, H>)
        ensures
            final(self)@ == old(self)@.after(Move::InstallSasListener(handle)),
            handoff.abort@ == old(self)@.aborts(Move::InstallSasListener(handle)),
            delivery_view(handoff.delivery) == delivery_due(
                old(self)@.delegate,
                old(self)@.handoff_callback(),
            ),
            handoff.next@ == old(self)@.handoff_next(pending@),
    {
        let abort: Vec<H> = self.listener_tasks.replace_concrete_listener(handle, false);
        let locally_started: bool = self.locally_starting_sas;
        self.locally_starting_sas = false;
        assert(abort@ =~= old(self)@.aborts(Move::InstallSasListener(handle)));
        if locally_started {
            SasHandoff {
                abort,
                delivery: self.delivery(Callback::DidStartSasVerification),
                next: HandoffNext::Stop,
            }
        } else {
            SasHandoff { abort, delivery: None, next: HandoffNext::AcceptSas(pending.release()) }
        }
    }

    /// The request listener has accepted the short auth string verification, and this is the
    /// reply. It makes this delivery and stops.
    pub fn sas_accept_replied(&self, accepted: Result<(), ClientError>) -> (delivery: Option<
        Delivery<D>,
    >)
        ensures
            delivery_view(delivery) == delivery_due(
                self@.delegate,
                Some(accept_callback(accepted)),
            ),
    {
        match accepted {
            Ok(_) => self.delivery(Callback::DidStartSasVerification),
            Err(_) => self.delivery(Callback::DidFail),
        }
    }

    /// A turn of the listener of a short auth string verification, which has seen `change`.
    pub fn listen_to_sas_verification_changes(&self, change: SasState) -> (turn: ListenerTurn<D>)
        ensures
            delivery_view(turn.delivery) == delivery_due(self@.delegate, sas_callback(change)),
            turn.next == sas_next(change),
    {
        match change {
            SasState::KeysExchanged { emojis, decimals } => ListenerTurn {
                delivery: self.delivery(
                    Callback::DidReceiveVerificationData {
                        data: SessionVerificationData::of_short_auth_string(emojis, decimals),
                    },
                ),
                next: ListenerNext::WaitForChange,
            },
            SasState::Done => ListenerTurn {
                delivery: self.delivery(Callback::DidFinish),
                next: ListenerNext::Stop,
            },
            SasState::Cancelled => ListenerTurn {
                delivery: self.delivery(Callback::DidCancel),
                next: ListenerNext::Stop,
            },
            SasState::Created | SasState::Started | SasState::Accepted | SasState::Confirmed => {
                ListenerTurn { delivery: None, next: ListenerNext::WaitForChange }
            },
        }
    }

    /// A turn of the listener of a QR code verification, which has seen `change`.
    pub fn listen_to_qr_verification_changes(&self, change: QrVerificationState) -> (turn:
        ListenerTurn<D>)
        ensures
            delivery_view(turn.delivery) == delivery_due(self@.delegate, qr_callback(change)),
            turn.next == qr_next(change),
    {
        let update: Option<SessionVerificationQrState> = match change {
            QrVerificationState::Scanned => Some(SessionVerificationQrState::Scanned),
            QrVerificationState::Reciprocated => Some(SessionVerificationQrState::Reciprocated),
            QrVerificationState::Confirmed => Some(SessionVerificationQrState::Confirmed),
            QrVerificationState::Done => {
                return ListenerTurn {
                    delivery: self.delivery(Callback::DidFinish),
                    next: ListenerNext::Stop,
                };
            },
            QrVerificationState::Cancelled => {
                return ListenerTurn {
                    delivery: self.delivery(Callback::DidCancel),
                    next: ListenerNext::Stop,
                };
            },
            QrVerificationState::Started => None,
        };
        let delivery: Option<Delivery<D>> = match update {
            Some(state) => self.delivery(Callback::DidUpdateQrVerification { state }),
            None => None,
        };
        ListenerTurn { delivery, next: ListenerNext::WaitForChange }
    }
}

} // verus!
