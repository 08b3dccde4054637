//! When a flow begins, and what is left of the previous one.

use vstd::prelude::*;

use crate::data::VerificationMethod;
use crate::error::ClientError;
use crate::model::{supported_methods, ControllerView, Move};
use crate::states::FlowStatus;
use crate::steps::Handover;

verus! {

/// A flow that is done or cancelled makes way for a new one, whatever else is the case, and so does
/// no flow. The new request is then the one at hand, it has turned into nothing yet, no local start
/// is pending, no listener of the previous flow is held, and each is to be aborted. A request
/// listener is asked for. The user and the delegate stay.
pub proof fn law_ended_flow_makes_way<D: ?Sized, R, S, Q, H>(
    state: ControllerView<D, R, S, Q, H>,
    post: ControllerView<D, R, S, Q, H>,
    request: R,
    status: FlowStatus,
    result: Result<Handover<H>, ClientError>,
)
    requires
        state.begins_flow(post, request, status, result),
        state.verification_request is None || status.is_done || status.is_cancelled,
    ensures
        post.verification_request == Some(request),
        post.sas_verification is None,
        post.qr_verification is None,
        !post.locally_starting_sas,
        post.listener_tasks.request is None,
        post.listener_tasks.concrete is None,
        post.own_user_id == state.own_user_id,
        post.delegate == state.delegate,
        result is Ok,
        result->Ok_0.listen is Request,
        forall|handle: H| #[trigger]
            result->Ok_0.abort@.contains(handle) <==> state.listener_tasks.request == Some(handle)
                || state.listener_tasks.concrete == Some(handle),
        result->Ok_0.abort@.len() == (if state.listener_tasks.request is Some {
            1int
        } else {
            0
        }) + (if state.listener_tasks.concrete is Some {
            1int
        } else {
            0
        }),
        state.listener_tasks.request is Some ==> Some(result->Ok_0.abort@[0])
            == state.listener_tasks.request,
{
    let abort = result->Ok_0.abort@;
    if let Some(handle) = state.listener_tasks.request {
        assert(abort[0] == handle);
    }
    if let Some(handle) = state.listener_tasks.concrete {
        assert(abort[abort.len() - 1] == handle);
    }
}

/// A flow that is neither done nor cancelled makes no way: a new one is refused with an error that
/// says so, and nothing changes.
pub proof fn law_ongoing_flow_makes_no_way<D: ?Sized, R, S, Q, H>(
    state: ControllerView<D, R, S, Q, H>,
    post: ControllerView<D, R, S, Q, H>,
    request: R,
    status: FlowStatus,
    result: Result<Handover<H>, ClientError>,
)
    requires
        state.begins_flow(post, request, status, result),
        state.verification_request is Some,
        !status.is_done,
        !status.is_cancelled,
    ensures
        post == state,
        result is Err,
        result->Err_0.msg@ == "There is another verification flow ongoing."@,
        result->Err_0.details is None,
{
}

/// A flow that has begun owes nothing to what was before: two controllers of one user and with one
/// delegate, in whatever states, are in the same state once the same flow has begun.
pub proof fn law_begun_flows_are_alike<D: ?Sized, R, S, Q, H>(
    one: ControllerView<D, R, S, Q, H>,
    other: ControllerView<D, R, S, Q, H>,
    request: R,
)
    requires
        one.own_user_id == other.own_user_id,
        one.delegate == other.delegate,
    ensures
        one.after(Move::BeginFlow(request)) == other.after(Move::BeginFlow(request)),
        one.after(Move::BeginFlow(request)).verification_request == Some(request),
        one.after(Move::BeginFlow(request)).sas_verification is None,
        one.after(Move::BeginFlow(request)).qr_verification is None,
{
}

/// We offer short auth strings first, then scanning, showing and reciprocating QR codes: each once,
/// and nothing else.
pub proof fn law_all_methods_are_offered(method: VerificationMethod)
    ensures
        supported_methods().len() == 4,
        supported_methods().contains(method),
        supported_methods().no_duplicates(),
        supported_methods()[0] is SasV1,
        supported_methods()[1] is QrCodeScanV1,
        supported_methods()[2] is QrCodeShowV1,
        supported_methods()[3] is ReciprocateV1,
{
    let methods = supported_methods();
    assert(methods[0] is SasV1 && methods[1] is QrCodeScanV1 && methods[2] is QrCodeShowV1
        && methods[3] is ReciprocateV1);
    match method {
        VerificationMethod::SasV1 => assert(methods[0] == method),
        VerificationMethod::QrCodeScanV1 => assert(methods[1] == method),
        VerificationMethod::QrCodeShowV1 => assert(methods[2] == method),
        VerificationMethod::ReciprocateV1 => assert(methods[3] == method),
    }
}

} // verus!
