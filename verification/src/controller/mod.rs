//! The controller of the ongoing verification flow.

pub mod incoming;
pub mod listeners;
pub mod qr;
pub mod requests;
pub mod sas;

use std::sync::Arc;
use vstd::prelude::*;

use crate::data::VerificationMethod;
use crate::delegate::{delivery_due, delivery_view, Callback, Delivery};
use crate::listener_tasks::ListenerTasks;
use crate::model::{supported_methods, ControllerView, Move};
use crate::sharing::{pointed_to, share};

verus! {

/// The controller: who hears about the flow, which flow is ongoing, and which tasks listen to it.
///
/// `R`, `S` and `Q` are handles of verification requests, short auth string verifications and QR
/// code verifications; `H` is the handle by which a task is aborted. Nothing is asked of the
/// delegate `D` here: the controller never calls it, it only says what is to be delivered.
pub struct SessionVerificationController<D: ?Sized, R, S, Q, H> {
    own_user_id: String,
    delegate: Option<Arc<D>>,
    verification_request: Option<Arc<R>>,
    sas_verification: Option<Arc<S>>,
    qr_verification: Option<Q>,
    listener_tasks: ListenerTasks<H>,
    locally_starting_sas: bool,
}

impl<D: ?Sized, R, S, Q, H> View for SessionVerificationController<D, R, S, Q, H> {
    type V = ControllerView<D, R, S, Q, H>;

    closed spec fn view(&self) -> ControllerView<D, R, S, Q, H> {
        ControllerView {
            own_user_id: self.own_user_id@,
            delegate: self.delegate,
            verification_request: pointed_to(self.verification_request),
            sas_verification: pointed_to(self.sas_verification),
            qr_verification: self.qr_verification,
            listener_tasks: self.listener_tasks@,
            locally_starting_sas: self.locally_starting_sas,
        }
    }
}

impl<D: ?Sized, R, S, Q, H> SessionVerificationController<D, R, S, Q, H> {
    /// A controller for the client of this user, with no delegate and no flow.
    pub fn new(own_user_id: String) -> (controller: Self)
        ensures
            controller@ == ControllerView::<D, R, S, Q, H>::initial(own_user_id@),
    {
        SessionVerificationController {
            own_user_id,
            delegate: None,
            verification_request: None,
            sas_verification: None,
            qr_verification: None,
            listener_tasks: ListenerTasks::default(),
            locally_starting_sas: false,
        }
    }

    /// Attaches a delegate in place of the previous one, or detaches it.
    pub fn set_delegate(&mut self, delegate: Option<Arc<D>>)
        ensures
            final(self)@ == old(self)@.after(Move::SetDelegate(delegate)),
    {
        self.delegate = delegate;
    }

    /// The attached delegate. The result owns its share of it, so that the delegate can be called
    /// after the controller has been released.
    pub fn current_delegate(&self) -> (delegate: Option<Arc<D>>)
        ensures
            delegate == self@.delegate,
    {
        match &self.delegate {
            Some(delegate) => Some(share(delegate)),
            None => None,
        }
    }

    /// The delivery of `callback` to the attached delegate, if there is one.
    pub(crate) fn delivery(&self, callback: Callback) -> (delivery: Option<Delivery<D>>)
        ensures
            delivery_view(delivery) == delivery_due(self@.delegate, Some(callback@)),
    {
        match self.current_delegate() {
            Some(delegate) => Some(Delivery { delegate, callback }),
            None => None,
        }
    }

    /// The request of the ongoing flow, or of the last one.
    pub fn verification_request(&self) -> (request: Option<&R>)
        ensures
            match request {
                Some(request) => self@.verification_request == Some(*request),
                None => self@.verification_request is None,
            },
    {
        match &self.verification_request {
            Some(request) => Some(&**request),
            None => None,
        }
    }

    /// The methods that we offer when we make or accept a request.
    pub fn supported_verification_methods() -> (methods: Vec<VerificationMethod>)
        ensures
            methods@ == supported_methods(),
    {
        vec![
            VerificationMethod::SasV1,
            VerificationMethod::QrCodeScanV1,
            VerificationMethod::QrCodeShowV1,
            VerificationMethod::ReciprocateV1,
        ]
    }
}

} // verus!
