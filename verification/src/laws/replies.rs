//! What each reply about an incoming request leads to, and what an error says.

use std::sync::Arc;
use vstd::prelude::*;

use crate::controller::incoming::{
    after_cross_signing, first_call, incoming_callback, pending_request, FoundRequest, IncomingCall,
    PendingRequest,
};
use crate::data::UserProfile;
use crate::delegate::{delivery_due, delivery_view, Delivery};
use crate::error::{plain_error, ClientError, ClientErrorView};
use crate::steps::{ends_with_error, fails_with, returns_error, LastStep, RequestLookUp, Step};
use crate::user_id::{invalid_user_id_error, InvalidUserId};

verus! {

/// What is needed first is about the request that came in: the same sender and the same flow. It is
/// the status of our cross-signing exactly if somebody else sent the request.
pub proof fn law_incoming_request_is_looked_up_as_it_came(
    own_user_id: Seq<char>,
    incoming: RequestLookUp,
    is_complete: Option<bool>,
)
    ensures
        first_call(own_user_id, incoming) is CrossSigningStatus <==> incoming.sender_id@
            != own_user_id,
        first_call(own_user_id, incoming) matches IncomingCall::CrossSigningStatus { then }
            ==> then.sender_id == incoming.sender_id && then.flow_id == incoming.flow_id,
        first_call(own_user_id, incoming) matches IncomingCall::VerificationRequest(look_up)
            ==> look_up.sender_id == incoming.sender_id && look_up.flow_id == incoming.flow_id,
        after_cross_signing(incoming, is_complete) is Err <==> is_complete == Some(false),
        after_cross_signing(incoming, is_complete) is Err ==> after_cross_signing(
            incoming,
            is_complete,
        )->Err_0 is CrossSigningIncomplete,
        after_cross_signing(incoming, is_complete) matches Ok(look_up) ==> look_up.sender_id
            == incoming.sender_id && look_up.flow_id == incoming.flow_id,
{
}

/// A request that was found is pending exactly if it is in the requested state. It keeps its
/// sender, its flow and its device. One that was not found is unknown, and one in another state is
/// in the wrong state.
pub proof fn law_pending_request_is_the_one_that_was_found<S, Q>(
    sender_id: String,
    found: Option<FoundRequest<S, Q>>,
)
    ensures
        ({
            let pending = pending_request(sender_id, found);
            &&& pending is Ok <==> found is Some && found->0.state is Requested
            &&& pending is Ok ==> pending->Ok_0.sender_id == sender_id
            &&& pending is Ok ==> pending->Ok_0.flow_id == found->0.flow_id
            &&& pending is Ok ==> pending->Ok_0.other_device_data
                == found->0.state->other_device_data
            &&& found is None ==> pending->Err_0 is UnknownRequest
            &&& found is Some && !(found->0.state is Requested) ==> pending->Err_0 is WrongState
        }),
{
}

/// The delegate hears who asks, from which device and in which flow, just as it was found out: the
/// profile that was fetched, and the flow and the device of the pending request. Without a profile
/// the request is ignored. Without a delegate nobody hears of it.
pub proof fn law_details_are_handed_over_unchanged<D: ?Sized>(
    delegate: Option<Arc<D>>,
    pending: PendingRequest,
    profile: Result<UserProfile, ClientError>,
    delivery: Option<Delivery<D>>,
)
    requires
        incoming_callback(pending, profile) matches Ok(callback) ==> delivery_view(delivery)
            == delivery_due(delegate, Some(callback)),
    ensures
        incoming_callback(pending, profile) is Ok <==> profile is Ok,
        profile is Err ==> incoming_callback(pending, profile)->Err_0 is UnknownProfile,
        profile is Ok ==> (delivery is Some <==> delegate is Some),
        profile is Ok && delivery is Some ==> {
            let details = delivery->0.callback->details;
            &&& delegate == Some(delivery->0.delegate)
            &&& delivery->0.callback is DidReceiveVerificationRequest
            &&& details.sender_profile == profile->Ok_0
            &&& details.sender_profile.user_id == profile->Ok_0.user_id
            &&& details.sender_profile.display_name == profile->Ok_0.display_name
            &&& details.sender_profile.avatar_url == profile->Ok_0.avatar_url
            &&& details.flow_id == pending.flow_id
            &&& details.device_id == pending.other_device_data.device_id
            &&& details.device_display_name == pending.other_device_data.display_name
            &&& details.first_seen_timestamp == pending.other_device_data.first_time_seen_ts
        },
{
}

/// A method that fails with a message returns an error with that message and without details,
/// whether this is all it does or the last thing that it does.
pub proof fn law_failure_says_its_message<T, C>(
    result: Result<T, ClientError>,
    step: Step<C, T>,
    last_step: LastStep<C, T>,
    msg: Seq<char>,
)
    ensures
        fails_with(result, plain_error(msg)) <==> result is Err && result->Err_0.msg@ == msg
            && result->Err_0.details is None,
        returns_error(step, plain_error(msg)) <==> step is Return && step->Return_0 is Err
            && step->Return_0->Err_0.msg@ == msg && step->Return_0->Err_0.details is None,
        ends_with_error(last_step, plain_error(msg)) <==> last_step is Return
            && last_step->Return_0 is Err && last_step->Return_0->Err_0.msg@ == msg
            && last_step->Return_0->Err_0.details is None,
{
    if fails_with(result, plain_error(msg)) {
        assert(result->Err_0@.details is None);
    }
    if returns_error(step, plain_error(msg)) {
        assert(step->Return_0->Err_0@.details is None);
    }
    if ends_with_error(last_step, plain_error(msg)) {
        assert(last_step->Return_0->Err_0@.details is None);
    }
}

/// A method that refuses a text that is no user identifier returns an error whose message is the
/// reason in words and whose details are the reason as it appears in a log.
pub proof fn law_invalid_user_id_is_explained<T, C>(reason: InvalidUserId, step: Step<C, T>)
    requires
        returns_error(step, invalid_user_id_error(reason@)),
    ensures
        step is Return,
        step->Return_0 is Err,
        step->Return_0->Err_0.msg@ == reason.message@,
        step->Return_0->Err_0.details is Some,
        step->Return_0->Err_0.details->0@ == reason.debug@,
{
    let said: ClientErrorView = step->Return_0->Err_0@;
    assert(said.details == Some(reason.debug@));
}

} // verus!
