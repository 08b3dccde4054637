//! Making, acknowledging, accepting and cancelling verification requests.

use std::sync::Arc;
use vstd::prelude::*;

use super::SessionVerificationController;
use crate::error::{plain_error, ClientError};
use crate::listener_tasks::slot;
use crate::model::{supported_methods, Move};
use crate::states::FlowStatus;
use crate::steps::{
    ends_with_error, fails_with, returns_error, AcceptCall, CancelCall, Handover, IdentityLookUp,
    IdentityStatus, LastStep, Listener, RequestCall, RequestLookUp, Step,
};
use crate::user_id::{
    invalid_user_id_error, parse_user_id, parsed_user_id, InvalidUserId, InvalidUserIdView,
};

verus! {

/// How acknowledging the request `flow_id` goes on, once the identifier of its sender has been
/// parsed.
pub fn look_up_request(parsed: Result<String, InvalidUserId>, flow_id: String) -> (step: Step<
    RequestLookUp,
    (),
>)
    ensures
        match parsed {
            Ok(sender_id) => step == Step::<RequestLookUp, ()>::Call(
                RequestLookUp { sender_id, flow_id },
            ),
            Err(reason) => returns_error(step, invalid_user_id_error(reason@)),
        },
{
    match parsed {
        Ok(sender_id) => Step::Call(RequestLookUp { sender_id, flow_id }),
        Err(reason) => Step::Return(Err(reason.into_error())),
    }
}

/// How asking a user to verify goes on, once the identifier of the user has been parsed.
pub fn look_up_identity(parsed: Result<String, InvalidUserId>) -> (step: Step<IdentityLookUp, ()>)
    ensures
        match parsed {
            Ok(user_id) => step == Step::<IdentityLookUp, ()>::Call(IdentityLookUp { user_id }),
            Err(reason) => returns_error(step, invalid_user_id_error(reason@)),
        },
{
    match parsed {
        Ok(user_id) => Step::Call(IdentityLookUp { user_id }),
        Err(reason) => Step::Return(Err(reason.into_error())),
    }
}

impl<D: ?Sized, R, S, Q, H> SessionVerificationController<D, R, S, Q, H> {
    /// Set this particular request as the currently active one and register for events pertaining
    /// it.
    /// * `sender_id` - The user requesting verification.
    /// * `flow_id` - The ID that uniquely identifies the verification flow.
    ///
    /// The reply to the look-up goes to [`Self::request_looked_up`].
    pub fn acknowledge_verification_request(&self, sender_id: String, flow_id: String) -> (step:
        Step<RequestLookUp, ()>)
        ensures
            match parsed_user_id(sender_id@) {
                Ok(user_id) => user_id == sender_id@ && (step matches Step::Call(call)
                    && call.sender_id@ == user_id && call.flow_id == flow_id),
                Err((message, debug)) => returns_error(
                    step,
                    invalid_user_id_error(InvalidUserIdView { message, debug }),
                ),
            },
    {
        look_up_request(parse_user_id(sender_id.as_str()), flow_id)
    }

    /// The request that was looked up, if it is known, and the status of the request at hand,
    /// which does not matter if there is none.
    ///
    /// An error is what acknowledging the request returns. Else it carries out the handover and
    /// succeeds.
    pub fn request_looked_up(&mut self, found: Option<R>, ongoing: FlowStatus) -> (result: Result<
        Handover<H>,
        ClientError,
    >)
        ensures
            match found {
                Some(request) => old(self)@.begins_flow(
                    final(self)@,
                    request,
                    ongoing,
                    result,
                ),
                None => final(self)@ == old(self)@ && fails_with(
                    result,
                    plain_error("Unknown session verification request"@),
                ),
            },
    {
        match found {
            Some(request) => self.set_ongoing_verification_request(request, ongoing),
            None => Err(ClientError::from_str("Unknown session verification request", None)),
        }
    }

    /// Accept the previously acknowledged verification request. Without one there is nothing to
    /// do.
    pub fn accept_verification_request(&self) -> (step: LastStep<AcceptCall<'_, R>, ()>)
        ensures
            match self@.verification_request {
                Some(request) => step matches LastStep::ReturnReplyOf(call) && *call.request
                    == request
                    && call.methods@ == supported_methods(),
                None => step == LastStep::<AcceptCall<'_, R>, ()>::Return(Ok(())),
            },
    {
        match &self.verification_request {
            Some(request) => LastStep::ReturnReplyOf(
                AcceptCall { request: &**request, methods: Self::supported_verification_methods() },
            ),
            None => LastStep::Return(Ok(())),
        }
    }

    /// Request verification for the current device, offering these methods.
    ///
    /// The reply goes to [`Self::verification_requested`].
    pub fn request_device_verification(&self) -> (call: RequestCall)
        ensures
            call.methods@ == supported_methods(),
    {
        RequestCall { methods: Self::supported_verification_methods() }
    }

    /// Request verification for the given user.
    ///
    /// The reply to the look-up goes to [`Self::identity_looked_up`].
    pub fn request_user_verification(&self, user_id: String) -> (step: Step<IdentityLookUp, ()>)
        ensures
            match parsed_user_id(user_id@) {
                Ok(parsed) => parsed == user_id@ && (step matches Step::Call(call)
                    && call.user_id@ == parsed),
                Err((message, debug)) => returns_error(
                    step,
                    invalid_user_id_error(InvalidUserIdView { message, debug }),
                ),
            },
    {
        look_up_identity(parse_user_id(user_id.as_str()))
    }

    /// The reply to the look-up of the user that is to be asked to verify. A user that is known
    /// and not verified yet is asked, offering these methods.
    ///
    /// The reply to that goes to [`Self::verification_requested`].
    pub fn identity_looked_up(&self, reply: Result<Option<IdentityStatus>, ClientError>) -> (step:
        Step<RequestCall, ()>)
        ensures
            match reply {
                Ok(Some(identity)) => if identity.is_verified {
                    returns_error(step, plain_error("User is already verified"@))
                } else {
                    step matches Step::Call(call) && call.methods@ == supported_methods()
                },
                Ok(None) => returns_error(step, plain_error("Unknown user identity"@)),
                Err(error) => step == Step::<RequestCall, ()>::Return(Err(error)),
            },
    {
        match reply {
            Ok(Some(identity)) => {
                if identity.is_verified {
                    return Step::Return(
                        Err(ClientError::from_str("User is already verified", None)),
                    );
                }
                Step::Call(RequestCall { methods: Self::supported_verification_methods() })
            },
            Ok(None) => Step::Return(Err(ClientError::from_str("Unknown user identity", None))),
            Err(error) => Step::Return(Err(error)),
        }
    }

    /// The reply to asking a device or a user to verify, and the status of the request at hand,
    /// which does not matter if there is none.
    ///
    /// An error is what the method that asked returns. Else it carries out the handover and
    /// succeeds.
    pub fn verification_requested(
        &mut self,
        reply: Result<R, ClientError>,
        ongoing: FlowStatus,
    ) -> (result: Result<Handover<H>, ClientError>)
        ensures
            match reply {
                Ok(request) => old(self)@.begins_flow(
                    final(self)@,
                    request,
                    ongoing,
                    result,
                ),
                Err(error) => final(self)@ == old(self)@ && result == Err::<
                    Handover<H>,
                    ClientError,
                >(error),
            },
    {
        match reply {
            Ok(request) => self.set_ongoing_verification_request(request, ongoing),
            Err(error) => Err(error),
        }
    }

    /// Makes `request` the ongoing one, unless the request at hand, whose status is `ongoing`, is
    /// neither done nor cancelled. The status does not matter if there is no request at hand.
    ///
    /// All listeners of the previous flow are aborted, and a listener for the new request is
    /// spawned; its handle goes to [`Self::install_request_listener`].
    pub fn set_ongoing_verification_request(&mut self, request: R, ongoing: FlowStatus) -> (result:
        Result<Handover<H>, ClientError>)
        ensures
            old(self)@.begins_flow(final(self)@, request, ongoing, result),
    {
        if self.verification_request.is_some() && !ongoing.is_done && !ongoing.is_cancelled {
            return Err(ClientError::from_str("There is another verification flow ongoing.", None));
        }
        self.verification_request = Some(Arc::new(request));
        self.sas_verification = None;
        self.qr_verification = None;
        self.locally_starting_sas = false;
        let abort: Vec<H> = self.listener_tasks.abort_all();
        Ok(Handover { abort, listen: Listener::Request })
    }

    /// A listener for the ongoing request has been spawned, and its task has this handle. Returns
    /// the handle of the previous one, whose task is to be aborted.
    #[must_use]
    pub fn install_request_listener(&mut self, handle: H) -> (abort: Option<H>)
        ensures
            final(self)@ == old(self)@.after(Move::InstallRequestListener(handle)),
            abort == old(self)@.listener_tasks.request,
            slot(abort) == old(self)@.aborts(Move::InstallRequestListener(handle)),
    {
        self.listener_tasks.replace_request_listener(handle)
    }

    /// Cancel the current verification request, or the QR code verification that it turned into.
    pub fn cancel_verification(&self) -> (step: LastStep<CancelCall<'_, R, Q>, ()>)
        ensures
            match (self@.qr_verification, self@.verification_request) {
                (Some(qr), _) => step matches LastStep::ReturnReplyOf(CancelCall::Qr(target))
                    && *target == qr,
                (None, Some(request)) => step matches LastStep::ReturnReplyOf(
                    CancelCall::Request(target),
                ) && *target == request,
                (None, None) => ends_with_error(
                    step,
                    plain_error("Verification request missing."@),
                ),
            },
    {
        if let Some(qr) = &self.qr_verification {
            return LastStep::ReturnReplyOf(CancelCall::Qr(qr));
        }
        match &self.verification_request {
            Some(request) => LastStep::ReturnReplyOf(CancelCall::Request(&**request)),
            None => LastStep::Return(
                Err(ClientError::from_str("Verification request missing.", None)),
            ),
        }
    }

    /// The controller goes away: takes out the handles of all listeners, whose tasks are to be
    /// aborted.
    #[must_use]
    pub fn abort_all(&mut self) -> (aborted: Vec<H>)
        ensures
            final(self)@ == old(self)@.after(Move::AbortAll),
            aborted@ == old(self)@.aborts(Move::AbortAll),
    {
        self.listener_tasks.abort_all()
    }
}

} // verus!
