//! The delegate of the controller and the callbacks that it receives.

use std::sync::Arc;
use vstd::prelude::*;

use crate::data::{
    SessionVerificationData, SessionVerificationDataView, SessionVerificationQrState,
    SessionVerificationRequestDetails,
};

verus! {

/// Hears about the verification flow.
///
/// A delegate is called with no lock of the controller held, so it may change the controller from
/// within a callback. In particular it may detach itself.
pub trait SessionVerificationControllerDelegate: Send + Sync {
    /// Whether this delegate promises to hear this callback without a panic. By default it promises
    /// nothing. Whoever has only this promise, and may not panic, can make this call and no other.
    open spec fn takes(&self, callback: CallbackView) -> bool {
        false
    }

    /// Someone asks to verify.
    fn did_receive_verification_request(&self, details: SessionVerificationRequestDetails)
        no_unwind when self.takes(CallbackView::DidReceiveVerificationRequest { details })
    ;

    /// The ongoing request has been accepted: both sides are ready.
    fn did_accept_verification_request(&self)
        no_unwind when self.takes(CallbackView::DidAcceptVerificationRequest)
    ;

    /// The ongoing request has turned into a short auth string verification.
    fn did_start_sas_verification(&self)
        no_unwind when self.takes(CallbackView::DidStartSasVerification)
    ;

    /// There is something to compare.
    fn did_receive_verification_data(&self, data: SessionVerificationData)
        no_unwind when self.takes(CallbackView::DidReceiveVerificationData { data: data@ })
    ;

    /// The QR code verification has got further.
    fn did_update_qr_verification(&self, state: SessionVerificationQrState)
        no_unwind when self.takes(CallbackView::DidUpdateQrVerification { state })
    ;

    /// A step of the flow failed.
    fn did_fail(&self)
        no_unwind when self.takes(CallbackView::DidFail)
    ;

    /// The flow was cancelled.
    fn did_cancel(&self)
        no_unwind when self.takes(CallbackView::DidCancel)
    ;

    /// The flow is done.
    fn did_finish(&self)
        no_unwind when self.takes(CallbackView::DidFinish)
    ;
}

/// A call of a method of the delegate.
#[derive(Debug, PartialEq, Eq)]
pub enum Callback {
    DidReceiveVerificationRequest { details: SessionVerificationRequestDetails },
    DidAcceptVerificationRequest,
    DidStartSasVerification,
    DidReceiveVerificationData { data: SessionVerificationData },
    DidUpdateQrVerification { state: SessionVerificationQrState },
    DidFail,
    DidCancel,
    DidFinish,
}

/// What a [`Callback`] says.
pub enum CallbackView {
    DidReceiveVerificationRequest { details: SessionVerificationRequestDetails },
    DidAcceptVerificationRequest,
    DidStartSasVerification,
    DidReceiveVerificationData { data: SessionVerificationDataView },
    DidUpdateQrVerification { state: SessionVerificationQrState },
    DidFail,
    DidCancel,
    DidFinish,
}

impl CallbackView {
    /// Whether the callback says that the flow has ended.
    pub open spec fn ends_flow(self) -> bool {
        self is DidCancel || self is DidFinish
    }
}

impl View for Callback {
    type V = CallbackView;

    open spec fn view(&self) -> CallbackView {
        match *self {
            Callback::DidReceiveVerificationRequest { details } => {
                CallbackView::DidReceiveVerificationRequest { details }
            },
            Callback::DidAcceptVerificationRequest => CallbackView::DidAcceptVerificationRequest,
            Callback::DidStartSasVerification => CallbackView::DidStartSasVerification,
            Callback::DidReceiveVerificationData { data } => {
                CallbackView::DidReceiveVerificationData { data: data@ }
            },
            Callback::DidUpdateQrVerification { state } => {
                CallbackView::DidUpdateQrVerification { state }
            },
            Callback::DidFail => CallbackView::DidFail,
            Callback::DidCancel => CallbackView::DidCancel,
            Callback::DidFinish => CallbackView::DidFinish,
        }
    }
}

/// A callback together with the delegate that was attached when it became due.
///
/// It owns its share of the delegate, so it can be delivered after the controller has been
/// released.
pub struct Delivery<D: ?Sized> {
    pub delegate: Arc<D>,
    pub callback: Callback,
}

/// What a [`Delivery`] says, and to whom.
pub struct DeliveryView<D: ?Sized> {
    pub delegate: Arc<D>,
    pub callback: CallbackView,
}

impl<D: ?Sized> View for Delivery<D> {
    type V = DeliveryView<D>;

    open spec fn view(&self) -> DeliveryView<D> {
        DeliveryView { delegate: self.delegate, callback: self.callback@ }
    }
}

/// The view of a delivery that may be missing.
pub open spec fn delivery_view<D: ?Sized>(
    delivery: Option<Delivery<D>>,
) -> Option<DeliveryView<D>> {
    match delivery {
        Some(delivery) => Some(delivery@),
        None => None,
    }
}

/// The delivery that is due for `callback`: none if no delegate is attached or if there is no
/// callback, and else the callback to the attached delegate.
pub open spec fn delivery_due<D: ?Sized>(
    delegate: Option<Arc<D>>,
    callback: Option<CallbackView>,
) -> Option<DeliveryView<D>> {
    match (delegate, callback) {
        (Some(delegate), Some(callback)) => Some(DeliveryView { delegate, callback }),
        _ => None,
    }
}

/// Whether the method of `delegate` that `callback` stands for has been called with what the
/// callback carries, and has returned. Nothing else is known of a delegate.
pub open spec fn was_called<D: SessionVerificationControllerDelegate + ?Sized>(
    delegate: &D,
    callback: Callback,
) -> bool {
    match callback {
        Callback::DidReceiveVerificationRequest { details } => call_ensures(
            D::did_receive_verification_request,
            (delegate, details),
            (),
        ),
        Callback::DidAcceptVerificationRequest => call_ensures(
            D::did_accept_verification_request,
            (delegate,),
            (),
        ),
        Callback::DidStartSasVerification => call_ensures(
            D::did_start_sas_verification,
            (delegate,),
            (),
        ),
        Callback::DidReceiveVerificationData { data } => call_ensures(
            D::did_receive_verification_data,
            (delegate, data),
            (),
        ),
        Callback::DidUpdateQrVerification { state } => call_ensures(
            D::did_update_qr_verification,
            (delegate, state),
            (),
        ),
        Callback::DidFail => call_ensures(D::did_fail, (delegate,), ()),
        Callback::DidCancel => call_ensures(D::did_cancel, (delegate,), ()),
        Callback::DidFinish => call_ensures(D::did_finish, (delegate,), ()),
    }
}

impl<D: SessionVerificationControllerDelegate + ?Sized> Delivery<D> {
    /// Calls the method of the delegate that has the name of the callback, with what the callback
    /// carries, and no other method: a delegate that takes this callback is enough for the delivery
    /// not to panic, whatever other callbacks it does not take.
    pub fn deliver(self)
        ensures
            was_called(&*self.delegate, self.callback),
        no_unwind when self.delegate.takes(self.callback@)
    {
        match self.callback {
            Callback::DidReceiveVerificationRequest { details } => {
                self.delegate.did_receive_verification_request(details)
            },
            Callback::DidAcceptVerificationRequest => {
                self.delegate.did_accept_verification_request()
            },
            Callback::DidStartSasVerification => self.delegate.did_start_sas_verification(),
            Callback::DidReceiveVerificationData { data } => {
                self.delegate.did_receive_verification_data(data)
            },
            Callback::DidUpdateQrVerification { state } => {
                self.delegate.did_update_qr_verification(state)
            },
            Callback::DidFail => self.delegate.did_fail(),
            Callback::DidCancel => self.delegate.did_cancel(),
            Callback::DidFinish => self.delegate.did_finish(),
        }
    }
}

} // verus!
