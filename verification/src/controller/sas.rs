//! Starting and answering short auth string verifications.

use vstd::prelude::*;

use super::SessionVerificationController;
use crate::delegate::{delivery_due, delivery_view, Callback, CallbackView};
use crate::error::{plain_error, ClientError};
use crate::model::Move;
use crate::steps::{
    ends_with_error, returns_error, LastStep, SasAnswer, SasStart, StartSasCall, Step,
};

verus! {

impl<D: ?Sized, R, S, Q, H> SessionVerificationController<D, R, S, Q, H> {
    /// Transition the current verification request into a SAS verification flow.
    ///
    /// This starts no listener: the request listener will see the transition and hand the flow
    /// over. The reply goes to [`Self::sas_start_replied`].
    pub fn start_sas_verification(&mut self) -> (step: Step<StartSasCall<'_, R>, ()>)
        ensures
            match old(self)@.verification_request {
                Some(request) => final(self)@ == old(self)@.after(Move::StartSas) && (
                step matches Step::Call(call) && *call.request == request),
                None => final(self)@ == old(self)@ && returns_error(
                    step,
                    plain_error("Verification request missing."@),
                ),
            },
    {
        match &self.verification_request {
            Some(request) => {
                self.locally_starting_sas = true;
                Step::Call(StartSasCall { request: &**request })
            },
            None => Step::Return(
                Err(ClientError::from_str("Verification request missing.", None)),
            ),
        }
    }

    /// The reply to starting a short auth string verification. The delegate hears about a failure,
    /// and the method succeeds either way.
    pub fn sas_start_replied(&mut self, reply: Result<Option<S>, ClientError>) -> (start: SasStart<
        D,
    >)
        ensures
            start.result == Ok::<(), ClientError>(()),
            reply matches Ok(Some(_)) ==> final(self)@ == old(self)@ && start.delivery is None,
            !(reply matches Ok(Some(_))) ==> final(self)@ == old(self)@.after(
                Move::GiveUpStartingSas,
            ) && delivery_view(start.delivery) == delivery_due(
                old(self)@.delegate,
                Some(CallbackView::DidFail),
            ),
    {
        match reply {
            Ok(Some(_)) => SasStart { delivery: None, result: Ok(()) },
            _ => {
                self.locally_starting_sas = false;
                SasStart { delivery: self.delivery(Callback::DidFail), result: Ok(()) }
            },
        }
    }

    /// Confirm that the short auth strings match on both sides.
    pub fn approve_verification(&self) -> (step: LastStep<SasAnswer<'_, S>, ()>)
        ensures
            match self@.sas_verification {
                Some(sas) => step matches LastStep::ReturnReplyOf(SasAnswer::Confirm(target))
                    && *target == sas,
                None => ends_with_error(step, plain_error("SAS verification missing"@)),
            },
    {
        match &self.sas_verification {
            Some(sas) => LastStep::ReturnReplyOf(SasAnswer::Confirm(&**sas)),
            None => LastStep::Return(Err(ClientError::from_str("SAS verification missing", None))),
        }
    }

    /// Reject the short auth string.
    pub fn decline_verification(&self) -> (step: LastStep<SasAnswer<'_, S>, ()>)
        ensures
            match self@.sas_verification {
                Some(sas) => step matches LastStep::ReturnReplyOf(SasAnswer::Mismatch(target))
                    && *target == sas,
                None => ends_with_error(step, plain_error("SAS verification missing"@)),
            },
    {
        match &self.sas_verification {
            Some(sas) => LastStep::ReturnReplyOf(SasAnswer::Mismatch(&**sas)),
            None => LastStep::Return(Err(ClientError::from_str("SAS verification missing", None))),
        }
    }
}

} // verus!
