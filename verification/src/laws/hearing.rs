//! What a delegate hears, and what a listener does then.

use std::sync::Arc;
use vstd::prelude::*;

use crate::data::{
    data_to_compare, SessionVerificationData, SessionVerificationDataView,
    SessionVerificationQrState,
};
use crate::delegate::{
    delivery_due, delivery_view, was_called, Callback, CallbackView, Delivery,
    SessionVerificationControllerDelegate,
};
use crate::error::ClientError;
use crate::model::{
    accept_callback, qr_callback, qr_next, request_callback, request_next, sas_callback, sas_next,
    ControllerView, Move,
};
use crate::states::{
    EmojiShortAuthString, QrVerificationState, SasState, Verification, VerificationRequestState,
};
use crate::steps::{ListenerTurn, PendingSas, RequestListenerTurn, SasHandoff};

verus! {

/// There is a delivery exactly if a delegate is attached and there is something to say. It goes to
/// the attached delegate and says just that.
pub proof fn law_delivery_goes_to_the_attached_delegate<D: ?Sized>(
    delegate: Option<Arc<D>>,
    callback: Option<CallbackView>,
    delivery: Option<Delivery<D>>,
)
    requires
        delivery_view(delivery) == delivery_due(delegate, callback),
    ensures
        delivery is Some <==> delegate is Some && callback is Some,
        delivery is Some ==> delegate == Some(delivery->0.delegate),
        delivery is Some ==> callback == Some(delivery->0.callback@),
{
}

/// What a callback says has its name and carries what it carries.
pub proof fn law_callback_says_what_its_name_says(callback: Callback)
    ensures
        callback is DidReceiveVerificationRequest <==> callback@ is DidReceiveVerificationRequest,
        callback is DidAcceptVerificationRequest <==> callback@ is DidAcceptVerificationRequest,
        callback is DidStartSasVerification <==> callback@ is DidStartSasVerification,
        callback is DidReceiveVerificationData <==> callback@ is DidReceiveVerificationData,
        callback is DidUpdateQrVerification <==> callback@ is DidUpdateQrVerification,
        callback is DidFail <==> callback@ is DidFail,
        callback is DidCancel <==> callback@ is DidCancel,
        callback is DidFinish <==> callback@ is DidFinish,
        callback is DidReceiveVerificationRequest ==> callback->details == callback@->details,
        callback is DidReceiveVerificationData ==> callback->data@ == callback@->data,
        callback is DidUpdateQrVerification ==> callback->state == callback@->state,
{
}

/// What there is to compare says which emojis and which indices there are, one by one, or which
/// numbers.
pub proof fn law_data_says_what_there_is_to_compare(data: SessionVerificationData)
    ensures
        data is Emojis <==> data@ is Emojis,
        data is Decimals <==> data@ is Decimals,
        data is Emojis ==> data@->emojis.len() == data->emojis@.len(),
        data is Emojis ==> forall|k: int|
            0 <= k < data->emojis@.len() ==> (#[trigger] data->emojis@[k])@ == data@->emojis[k],
        data is Emojis ==> data@->indices == data->indices@,
        data is Decimals ==> data@->values == data->values@,
{
}

/// Where a delivery has been made, the method of the delegate that has the name of the callback has
/// been called with what the callback carries.
pub proof fn law_delivery_calls_the_method_of_its_name<
    D: SessionVerificationControllerDelegate + ?Sized,
>(delegate: &D, callback: Callback)
    requires
        was_called(delegate, callback),
    ensures
        callback is DidReceiveVerificationRequest ==> call_ensures(
            D::did_receive_verification_request,
            (delegate, callback->details),
            (),
        ),
        callback is DidAcceptVerificationRequest ==> call_ensures(
            D::did_accept_verification_request,
            (delegate,),
            (),
        ),
        callback is DidStartSasVerification ==> call_ensures(
            D::did_start_sas_verification,
            (delegate,),
            (),
        ),
        callback is DidReceiveVerificationData ==> call_ensures(
            D::did_receive_verification_data,
            (delegate, callback->data),
            (),
        ),
        callback is DidUpdateQrVerification ==> call_ensures(
            D::did_update_qr_verification,
            (delegate, callback->state),
            (),
        ),
        callback is DidFail ==> call_ensures(D::did_fail, (delegate,), ()),
        callback is DidCancel ==> call_ensures(D::did_cancel, (delegate,), ()),
        callback is DidFinish ==> call_ensures(D::did_finish, (delegate,), ()),
{
}

/// A short auth string in its emoji form is shown whole and in order: there are seven emojis and
/// seven indices, and at every position the symbol, the description and the index are those of the
/// string at that position.
pub proof fn law_every_emoji_is_shown(
    string: EmojiShortAuthString,
    decimals: (u16, u16, u16),
    data: SessionVerificationData,
)
    requires
        data@ == data_to_compare(Some(string), decimals),
    ensures
        data is Emojis,
        data->emojis@.len() == 7,
        data->indices@.len() == 7,
        forall|k: int|
            0 <= k < 7 ==> (#[trigger] data->emojis@[k])@.symbol == string.emojis@[k].symbol@,
        forall|k: int|
            0 <= k < 7 ==> (#[trigger] data->emojis@[k])@.description
                == string.emojis@[k].description@,
        forall|k: int| 0 <= k < 7 ==> #[trigger] data->indices@[k] == string.indices@[k],
{
    law_data_says_what_there_is_to_compare(data);
}

/// A short auth string without an emoji form is shown as its three numbers, in order.
pub proof fn law_every_number_is_shown(decimals: (u16, u16, u16), data: SessionVerificationData)
    requires
        data@ == data_to_compare(None, decimals),
    ensures
        data is Decimals,
        data->values@.len() == 3,
        data->values@[0] == decimals.0,
        data->values@[1] == decimals.1,
        data->values@[2] == decimals.2,
{
}

/// Two short auth strings that differ at some position are shown differently, so two people who see
/// the same have the same string.
pub proof fn law_different_strings_look_different(
    one: EmojiShortAuthString,
    one_decimals: (u16, u16, u16),
    other: EmojiShortAuthString,
    other_decimals: (u16, u16, u16),
    k: int,
)
    requires
        0 <= k < 7,
        one.indices@[k] != other.indices@[k] || one.emojis@[k].symbol@ != other.emojis@[k].symbol@
            || one.emojis@[k].description@ != other.emojis@[k].description@,
    ensures
        data_to_compare(Some(one), one_decimals) != data_to_compare(Some(other), other_decimals),
{
    let seen: SessionVerificationDataView = data_to_compare(Some(one), one_decimals);
    let other_seen: SessionVerificationDataView = data_to_compare(Some(other), other_decimals);
    assert(seen->emojis[k].symbol == one.emojis@[k].symbol@);
    assert(other_seen->emojis[k].symbol == other.emojis@[k].symbol@);
    assert(seen->emojis[k].description == one.emojis@[k].description@);
    assert(other_seen->emojis[k].description == other.emojis@[k].description@);
    assert(seen->indices[k] == one.indices@[k]);
    assert(other_seen->indices[k] == other.indices@[k]);
}

/// A turn of the listener of a short auth string verification. The attached delegate, and only it,
/// hears that the flow is done exactly if the verification is done, that it was cancelled exactly
/// if it is cancelled, and what to compare exactly if the keys have been exchanged: the emojis
/// where there are some, and else the numbers. It hears nothing else. The listener stops exactly if
/// the verification is done or cancelled.
pub proof fn law_turn_of_the_sas_listener<D: ?Sized>(
    delegate: Option<Arc<D>>,
    change: SasState,
    turn: ListenerTurn<D>,
)
    requires
        delivery_view(turn.delivery) == delivery_due(delegate, sas_callback(change)),
        turn.next == sas_next(change),
    ensures
        turn.delivery is Some <==> delegate is Some && (change is Done || change is Cancelled
            || change is KeysExchanged),
        turn.delivery is Some ==> delegate == Some(turn.delivery->0.delegate),
        turn.delivery is Some ==> (turn.delivery->0.callback is DidFinish <==> change is Done),
        turn.delivery is Some ==> (turn.delivery->0.callback is DidCancel <==> change is Cancelled),
        turn.delivery is Some ==> (turn.delivery->0.callback is DidReceiveVerificationData
            <==> change is KeysExchanged),
        turn.delivery is Some && change is KeysExchanged && change->emojis is Some ==> {
            let data = turn.delivery->0.callback->data;
            let string = change->emojis->0;
            &&& data is Emojis
            &&& data->emojis@.len() == 7
            &&& data->indices@.len() == 7
            &&& forall|k: int|
                0 <= k < 7 ==> {
                    &&& (#[trigger] data->emojis@[k])@.symbol == string.emojis@[k].symbol@
                    &&& data->emojis@[k]@.description == string.emojis@[k].description@
                    &&& data->indices@[k] == string.indices@[k]
                }
        },
        turn.delivery is Some && change is KeysExchanged && change->emojis is None ==> {
            let data = turn.delivery->0.callback->data;
            &&& data is Decimals
            &&& data->values@ == seq![change->decimals.0, change->decimals.1, change->decimals.2]
        },
        turn.next is Stop <==> change is Done || change is Cancelled,
{
    if turn.delivery is Some && change is KeysExchanged {
        let data = turn.delivery->0.callback->data;
        law_callback_says_what_its_name_says(turn.delivery->0.callback);
        if change->emojis is Some {
            law_every_emoji_is_shown(change->emojis->0, change->decimals, data);
        } else {
            law_every_number_is_shown(change->decimals, data);
        }
    }
}

/// A turn of the listener of a QR code verification. The attached delegate, and only it, hears that
/// the flow is done exactly if the verification is done, that it was cancelled exactly if it is
/// cancelled, and how far the verification has got exactly if it is scanned, reciprocated or
/// confirmed. It hears nothing else. The listener stops exactly if the verification is done or
/// cancelled.
pub proof fn law_turn_of_the_qr_listener<D: ?Sized>(
    delegate: Option<Arc<D>>,
    change: QrVerificationState,
    turn: ListenerTurn<D>,
)
    requires
        delivery_view(turn.delivery) == delivery_due(delegate, qr_callback(change)),
        turn.next == qr_next(change),
    ensures
        turn.delivery is Some <==> delegate is Some && !(change is Started),
        turn.delivery is Some ==> delegate == Some(turn.delivery->0.delegate),
        turn.delivery is Some ==> (turn.delivery->0.callback is DidFinish <==> change is Done),
        turn.delivery is Some ==> (turn.delivery->0.callback is DidCancel <==> change is Cancelled),
        turn.delivery is Some ==> (turn.delivery->0.callback
            == (Callback::DidUpdateQrVerification { state: SessionVerificationQrState::Scanned })
            <==> change is Scanned),
        turn.delivery is Some ==> (turn.delivery->0.callback
            == (Callback::DidUpdateQrVerification {
            state: SessionVerificationQrState::Reciprocated,
        }) <==> change is Reciprocated),
        turn.delivery is Some ==> (turn.delivery->0.callback
            == (Callback::DidUpdateQrVerification { state: SessionVerificationQrState::Confirmed })
            <==> change is Confirmed),
        turn.next is Stop <==> change is Done || change is Cancelled,
{
}

/// A turn of the request listener. The attached delegate, and only it, hears that the request was
/// accepted exactly if it is ready, that the flow is done exactly if it is done, and that it was
/// cancelled exactly if it is cancelled. It hears nothing else. A listener is spawned exactly if
/// the request turned into a short auth string verification and somebody owns the listeners, and it
/// listens to that verification. The request listener stops exactly if the flow has ended, or if
/// there would be a listener to spawn and nobody owns the listeners.
pub proof fn law_turn_of_the_request_listener<D: ?Sized, S, Q>(
    delegate: Option<Arc<D>>,
    change: VerificationRequestState<S, Q>,
    has_owner: bool,
    turn: RequestListenerTurn<D, S>,
)
    requires
        delivery_view(turn.delivery) == delivery_due(delegate, request_callback(change)),
        turn.next@ == request_next(change, has_owner),
    ensures
        turn.delivery is Some <==> delegate is Some && (change is Ready || change is Done
            || change is Cancelled),
        turn.delivery is Some ==> delegate == Some(turn.delivery->0.delegate),
        turn.delivery is Some ==> (turn.delivery->0.callback is DidAcceptVerificationRequest
            <==> change is Ready),
        turn.delivery is Some ==> (turn.delivery->0.callback is DidFinish <==> change is Done),
        turn.delivery is Some ==> (turn.delivery->0.callback is DidCancel <==> change is Cancelled),
        turn.next is SpawnSasListener <==> has_owner && (
        change matches VerificationRequestState::Transitioned {
            verification: Verification::SasV1(_),
        }),
        has_owner ==> (change matches VerificationRequestState::Transitioned {
            verification: Verification::SasV1(sas),
        } ==> turn.next->SpawnSasListener_0@ == sas),
        turn.next is Stop <==> change is Done || change is Cancelled || (!has_owner && (
        change matches VerificationRequestState::Transitioned {
            verification: Verification::SasV1(_),
        })),
{
}

/// The handoff to the listener of a short auth string verification. That verification, and no
/// other, is accepted exactly if we did not start it. If we did, the attached delegate hears that
/// it has started, and else nothing yet. From here on the start is taken into account, the new
/// listener is the concrete one, the previous concrete listener is to be aborted, and the request
/// listener stays. Nothing else changes.
pub proof fn law_handoff_to_the_sas_listener<D: ?Sized, R, S, Q, H>(
    state: ControllerView<D, R, S, Q, H>,
    post: ControllerView<D, R, S, Q, H>,
    pending: PendingSas<S>,
    handle: H,
    handoff: SasHandoff<D, S, H>,
)
    requires
        post == state.after(Move::InstallSasListener(handle)),
        handoff.abort@ == state.aborts(Move::InstallSasListener(handle)),
        delivery_view(handoff.delivery) == delivery_due(state.delegate, state.handoff_callback()),
        handoff.next@ == state.handoff_next(pending@),
    ensures
        handoff.next is AcceptSas <==> !state.locally_starting_sas,
        handoff.next is AcceptSas ==> *handoff.next->AcceptSas_0 == pending@,
        handoff.delivery is Some <==> state.delegate is Some && state.locally_starting_sas,
        handoff.delivery is Some ==> state.delegate == Some(handoff.delivery->0.delegate),
        handoff.delivery is Some ==> handoff.delivery->0.callback is DidStartSasVerification,
        state.listener_tasks.concrete is None ==> handoff.abort@.len() == 0,
        state.listener_tasks.concrete is Some ==> handoff.abort@.len() == 1 && Some(
            handoff.abort@[0],
        ) == state.listener_tasks.concrete,
        !post.locally_starting_sas,
        post.listener_tasks.concrete == Some(handle),
        post.listener_tasks.request == state.listener_tasks.request,
        post.verification_request == state.verification_request,
        post.sas_verification == state.sas_verification,
        post.qr_verification == state.qr_verification,
        post.delegate == state.delegate,
{
}

/// Once a short auth string verification has been accepted, the attached delegate hears that it has
/// started if accepting succeeded, and that a step failed if not.
pub proof fn law_reply_to_accepting_is_told<D: ?Sized>(
    delegate: Option<Arc<D>>,
    accepted: Result<(), ClientError>,
    delivery: Option<Delivery<D>>,
)
    requires
        delivery_view(delivery) == delivery_due(delegate, Some(accept_callback(accepted))),
    ensures
        delivery is Some <==> delegate is Some,
        delivery is Some ==> delegate == Some(delivery->0.delegate),
        delivery is Some ==> (delivery->0.callback is DidStartSasVerification <==> accepted is Ok),
        delivery is Some ==> (delivery->0.callback is DidFail <==> accepted is Err),
{
}

} // verus!
