//! Incoming verification requests.

use vstd::prelude::*;

use super::SessionVerificationController;
use crate::data::{SessionVerificationRequestDetails, UserProfile};
use crate::delegate::{delivery_due, delivery_view, Callback, CallbackView, Delivery};
use crate::error::ClientError;
use crate::states::{DeviceData, VerificationRequestState};
use crate::steps::RequestLookUp;

verus! {

/// What is needed first to process an incoming request.
#[derive(Debug, PartialEq, Eq)]
pub enum IncomingCall {
    /// Whether our cross-signing is complete. The request may have to be looked up `then`.
    CrossSigningStatus { then: RequestLookUp },
    /// The request itself.
    VerificationRequest(RequestLookUp),
}

/// Why an incoming request is ignored.
#[derive(Debug, Clone, Copy, PartialEq, Eq, Structural)]
pub enum Ignored {
    /// It comes from another user, whom we cannot verify before our own cross-signing is complete.
    CrossSigningIncomplete,
    /// It cannot be found.
    UnknownRequest,
    /// It is in another state than requested.
    WrongState,
    /// The profile of the sender cannot be fetched.
    UnknownProfile,
}

/// An incoming request as it was found.
#[derive(Debug, PartialEq, Eq)]
pub struct FoundRequest<S, Q> {
    pub flow_id: String,
    pub state: VerificationRequestState<S, Q>,
}

/// An incoming request that the delegate will hear about once the profile of `sender_id` is there.
#[derive(Debug, PartialEq, Eq)]
pub struct PendingRequest {
    pub sender_id: String,
    pub flow_id: String,
    pub other_device_data: DeviceData,
}

/// What is needed first: for a request of another user, the status of our cross-signing.
pub open spec fn first_call(own_user_id: Seq<char>, look_up: RequestLookUp) -> IncomingCall {
    if look_up.sender_id@ == own_user_id {
        IncomingCall::VerificationRequest(look_up)
    } else {
        IncomingCall::CrossSigningStatus { then: look_up }
    }
}

/// What is needed next for a request of another user, if our cross-signing has the status
/// `is_complete`: only if it is known to be incomplete, the request is ignored.
pub open spec fn after_cross_signing(then: RequestLookUp, is_complete: Option<bool>) -> Result<
    RequestLookUp,
    Ignored,
> {
    if is_complete == Some(false) {
        Err(Ignored::CrossSigningIncomplete)
    } else {
        Ok(then)
    }
}

/// The request of `sender_id` that the delegate will hear about.
pub open spec fn pending_request<S, Q>(
    sender_id: String,
    found: Option<FoundRequest<S, Q>>,
) -> Result<PendingRequest, Ignored> {
    match found {
        None => Err(Ignored::UnknownRequest),
        Some(found) => match found.state {
            VerificationRequestState::Requested { other_device_data } => Ok(
                PendingRequest { sender_id, flow_id: found.flow_id, other_device_data },
            ),
            _ => Err(Ignored::WrongState),
        },
    }
}

/// What the delegate hears about the request.
pub open spec fn incoming_callback(
    pending: PendingRequest,
    profile: Result<UserProfile, ClientError>,
) -> Result<CallbackView, Ignored> {
    match profile {
        Ok(sender_profile) => Ok(
            CallbackView::DidReceiveVerificationRequest {
                details: SessionVerificationRequestDetails::of_request(
                    sender_profile,
                    pending.flow_id,
                    pending.other_device_data,
                ),
            },
        ),
        Err(_) => Err(Ignored::UnknownProfile),
    }
}

/// Our cross-signing has this status, if it has one: whether it is complete. A request of another
/// user is then looked up or ignored.
pub fn cross_signing_replied(then: RequestLookUp, is_complete: Option<bool>) -> (result: Result<
    RequestLookUp,
    Ignored,
>)
    ensures
        result == after_cross_signing(then, is_complete),
{
    match is_complete {
        Some(false) => Err(Ignored::CrossSigningIncomplete),
        _ => Ok(then),
    }
}

/// The request of `sender_id` was looked up. If it is known and is in the right state, the profile
/// of the sender is fetched.
pub fn incoming_request_replied<S, Q>(
    sender_id: String,
    found: Option<FoundRequest<S, Q>>,
) -> (result: Result<PendingRequest, Ignored>)
    ensures
        result == pending_request(sender_id, found),
{
    match found {
        None => Err(Ignored::UnknownRequest),
        Some(found) => match found.state {
            VerificationRequestState::Requested { other_device_data } => Ok(
                PendingRequest { sender_id, flow_id: found.flow_id, other_device_data },
            ),
            _ => Err(Ignored::WrongState),
        },
    }
}

impl<D: ?Sized, R, S, Q, H> SessionVerificationController<D, R, S, Q, H> {
    /// Ask the controller to process an incoming request based on the sender and flow identifier.
    /// The request is fetched, it is checked that it is in the correct state, and the delegate is
    /// notified.
    ///
    /// For a request of another user the status of our cross-signing is needed first, which goes
    /// to [`cross_signing_replied`]. The request goes to [`incoming_request_replied`], the profile
    /// of its sender to [`Self::profile_replied`].
    pub fn process_incoming_verification_request(&self, sender: String, flow_id: String) -> (call:
        IncomingCall)
        ensures
            call == first_call(self@.own_user_id, RequestLookUp { sender_id: sender, flow_id }),
    {
        let is_own: bool = sender == self.own_user_id;
        let look_up = RequestLookUp { sender_id: sender, flow_id };
        if is_own {
            IncomingCall::VerificationRequest(look_up)
        } else {
            IncomingCall::CrossSigningStatus { then: look_up }
        }
    }

    /// The profile of the sender was fetched. The delegate hears about the request.
    pub fn profile_replied(
        &self,
        pending: PendingRequest,
        profile: Result<UserProfile, ClientError>,
    ) -> (result: Result<Option<Delivery<D>>, Ignored>)
        ensures
            match incoming_callback(pending, profile) {
                Ok(callback) => result matches Ok(delivery) && delivery_view(delivery)
                    == delivery_due(self@.delegate, Some(callback)),
                Err(reason) => result == Err::<Option<Delivery<D>>, Ignored>(reason),
            },
    {
        match profile {
            Ok(sender_profile) => {
                let details = SessionVerificationRequestDetails {
                    sender_profile,
                    flow_id: pending.flow_id,
                    device_id: pending.other_device_data.device_id,
                    device_display_name: pending.other_device_data.display_name,
                    first_seen_timestamp: pending.other_device_data.first_time_seen_ts,
                };
                Ok(self.delivery(Callback::DidReceiveVerificationRequest { details }))
            },
            Err(_) => Err(Ignored::UnknownProfile),
        }
    }
}

} // verus!
