use session_verification::controller::qr::qr_code_encoded;
use session_verification::controller::requests::{look_up_identity, look_up_request};
use session_verification::controller::SessionVerificationController;
use session_verification::data::{
    SessionVerificationData, SessionVerificationQrState, SessionVerificationRequestDetails,
    VerificationMethod,
};
use session_verification::delegate::{Callback, Delivery, SessionVerificationControllerDelegate};
use session_verification::error::ClientError;
use session_verification::states::{
    FlowStatus, QrVerificationState, SasState, Verification, VerificationRequestState,
};
use session_verification::steps::{
    CancelCall, ConfirmQrCall, HandoffNext, Handover, IdentityLookUp, IdentityStatus, LastStep,
    Listener, ListenerNext, PendingSas, RequestCall, RequestListenerNext, RequestLookUp, SasAnswer,
    ScanCall, StartSasCall, Step,
};
use session_verification::user_id::InvalidUserId;
use std::sync::Arc;

/// A delegate that does nothing.
struct Quiet;

impl SessionVerificationControllerDelegate for Quiet {
    fn did_receive_verification_request(&self, _: SessionVerificationRequestDetails) {}
    fn did_accept_verification_request(&self) {}
    fn did_start_sas_verification(&self) {}
    fn did_receive_verification_data(&self, _: SessionVerificationData) {}
    fn did_update_qr_verification(&self, _: SessionVerificationQrState) {}
    fn did_fail(&self) {}
    fn did_cancel(&self) {}
    fn did_finish(&self) {}
}

type Controller = SessionVerificationController<Quiet, u64, &'static str, u64, u64>;
type Change = VerificationRequestState<&'static str, u64>;

const ONGOING: FlowStatus = FlowStatus { is_done: false, is_cancelled: false };
const DONE: FlowStatus = FlowStatus { is_done: true, is_cancelled: false };
const CANCELLED: FlowStatus = FlowStatus { is_done: false, is_cancelled: true };

fn controller() -> Controller {
    let mut controller = Controller::new("@alice:example.org".to_owned());
    controller.set_delegate(Some(Arc::new(Quiet)));
    controller
}

/// A controller whose ongoing request is 7, listened to under the handle 1.
fn with_flow() -> Controller {
    let mut controller = controller();
    assert_eq!(
        controller.set_ongoing_verification_request(7, ONGOING),
        Ok(Handover { abort: vec![], listen: Listener::Request })
    );
    assert_eq!(controller.install_request_listener(1), None);
    controller
}

fn error(msg: &str) -> ClientError {
    ClientError { msg: msg.to_owned(), details: None }
}

fn callback(delivery: Option<Delivery<Quiet>>) -> Option<Callback> {
    delivery.map(|delivery| delivery.callback)
}

fn all_methods() -> Vec<VerificationMethod> {
    vec![
        VerificationMethod::SasV1,
        VerificationMethod::QrCodeScanV1,
        VerificationMethod::QrCodeShowV1,
        VerificationMethod::ReciprocateV1,
    ]
}

fn sas(sas: &'static str) -> Change {
    VerificationRequestState::Transitioned { verification: Verification::SasV1(sas) }
}

/// Lets the request turn into `name` and takes what is handed out to be listened to.
fn hand_out(controller: &mut Controller, name: &'static str) -> PendingSas<&'static str> {
    match controller.listen_to_verification_request_changes(sas(name), true).next {
        RequestListenerNext::SpawnSasListener(pending) => {
            assert_eq!(*pending.sas(), name);
            pending
        }
        _ => panic!("a listener must be spawned"),
    }
}

fn accept(sas: &'static str) -> HandoffNext<Arc<&'static str>> {
    HandoffNext::AcceptSas(Arc::new(sas))
}

// Requests.

#[test]
fn acknowledging_looks_the_request_up() {
    assert_eq!(
        controller().acknowledge_verification_request("@bob:example.org".into(), "flow".into()),
        Step::Call(RequestLookUp { sender_id: "@bob:example.org".into(), flow_id: "flow".into() })
    );
}

#[test]
fn acknowledging_refuses_what_is_no_user_id() {
    let refused = |id: &str, msg: &str, debug: &str| {
        assert_eq!(
            controller().acknowledge_verification_request(id.into(), "flow".into()),
            Step::Return(Err(ClientError { msg: msg.into(), details: Some(debug.into()) }))
        );
    };
    refused("bob:example.org", "leading sigil is incorrect or missing", "MissingLeadingSigil");
    refused("", "leading sigil is incorrect or missing", "MissingLeadingSigil");
    refused("@bob", "required colon is missing", "MissingColon");
    refused(
        "@bob:",
        "server name is not a valid IP address or domain name",
        "InvalidServerName",
    );
}

#[test]
fn requesting_a_user_refuses_what_is_no_user_id() {
    assert_eq!(
        controller().request_user_verification("bob".into()),
        Step::Return(Err(ClientError {
            msg: "leading sigil is incorrect or missing".into(),
            details: Some("MissingLeadingSigil".into()),
        }))
    );
    assert_eq!(
        controller().request_user_verification("@bob:example.org".into()),
        Step::Call(IdentityLookUp { user_id: "@bob:example.org".into() })
    );
}

#[test]
fn parse_results_decide_the_look_ups() {
    let invalid = || InvalidUserId { message: "bad".into(), debug: "Bad".into() };
    let bad = || ClientError { msg: "bad".into(), details: Some("Bad".into()) };
    assert_eq!(look_up_request(Err(invalid()), "flow".into()), Step::Return(Err(bad())));
    assert_eq!(look_up_identity(Err(invalid())), Step::Return(Err(bad())));
    assert_eq!(
        look_up_request(Ok("@bob:example.org".into()), "flow".into()),
        Step::Call(RequestLookUp { sender_id: "@bob:example.org".into(), flow_id: "flow".into() })
    );
    assert_eq!(
        look_up_identity(Ok("@bob:example.org".into())),
        Step::Call(IdentityLookUp { user_id: "@bob:example.org".into() })
    );
}

#[test]
fn unknown_request_is_refused() {
    let mut controller = controller();
    assert_eq!(
        controller.request_looked_up(None, ONGOING),
        Err(error("Unknown session verification request"))
    );
    assert_eq!(controller.verification_request(), None);
    assert_eq!(
        controller.request_looked_up(Some(7), ONGOING),
        Ok(Handover { abort: vec![], listen: Listener::Request })
    );
    assert_eq!(controller.verification_request(), Some(&7));
}

#[test]
fn accepting_offers_all_methods() {
    match with_flow().accept_verification_request() {
        LastStep::ReturnReplyOf(call) => {
            assert_eq!(*call.request, 7);
            assert_eq!(call.methods, all_methods());
        }
        _ => panic!("the request must be accepted"),
    }
}

#[test]
fn accepting_nothing_succeeds() {
    assert_eq!(controller().accept_verification_request(), LastStep::Return(Ok(())));
}

#[test]
fn device_verification_offers_all_methods() {
    assert_eq!(controller().request_device_verification().methods, all_methods());
}

#[test]
fn only_known_and_unverified_users_are_asked() {
    let controller = controller();
    assert_eq!(
        controller.identity_looked_up(Ok(Some(IdentityStatus { is_verified: false }))),
        Step::Call(RequestCall { methods: all_methods() })
    );
    assert_eq!(
        controller.identity_looked_up(Ok(Some(IdentityStatus { is_verified: true }))),
        Step::Return(Err(error("User is already verified")))
    );
    assert_eq!(
        controller.identity_looked_up(Ok(None)),
        Step::Return(Err(error("Unknown user identity")))
    );
    assert_eq!(
        controller.identity_looked_up(Err(error("offline"))),
        Step::Return(Err(error("offline")))
    );
}

#[test]
fn failed_request_changes_nothing() {
    let mut controller = with_flow();
    assert_eq!(
        controller.verification_requested(Err(error("offline")), DONE),
        Err(error("offline"))
    );
    assert_eq!(controller.verification_request(), Some(&7));
    assert_eq!(controller.abort_all(), vec![1]);
}

#[test]
fn ongoing_flow_is_not_replaced() {
    let mut controller = with_flow();
    assert_eq!(
        controller.verification_requested(Ok(8), ONGOING),
        Err(error("There is another verification flow ongoing."))
    );
    assert_eq!(controller.verification_request(), Some(&7));
    assert_eq!(controller.abort_all(), vec![1]);
}

#[test]
fn ended_flow_leaves_nothing_behind() {
    for ended in [DONE, CANCELLED] {
        let mut controller = with_flow();
        let pending = hand_out(&mut controller, "sas");
        assert_eq!(controller.install_sas_listener(pending, 2).abort, Vec::<u64>::new());
        assert!(controller.qr_verification_replied(Ok(Some(5))).is_ok());
        assert_eq!(controller.start_sas_verification(), Step::Call(StartSasCall { request: &7 }));
        assert_eq!(
            controller.set_ongoing_verification_request(8, ended),
            Ok(Handover { abort: vec![1, 2], listen: Listener::Request })
        );
        assert_eq!(controller.install_request_listener(3), None);
        assert_eq!(
            controller.approve_verification(),
            LastStep::Return(Err(error("SAS verification missing")))
        );
        assert_eq!(
            controller.confirm_qr_verification(),
            LastStep::Return(Err(error("QR verification missing")))
        );
        assert_eq!(
            controller.cancel_verification(),
            LastStep::ReturnReplyOf(CancelCall::Request(&8))
        );
        // The local start belonged to the previous flow.
        let pending = hand_out(&mut controller, "other");
        assert_eq!(controller.install_sas_listener(pending, 4).next, accept("other"));
    }
}

#[test]
fn cancelling_prefers_the_qr_verification() {
    let mut controller = controller();
    assert_eq!(
        controller.cancel_verification(),
        LastStep::Return(Err(error("Verification request missing.")))
    );
    assert!(controller.set_ongoing_verification_request(7, ONGOING).is_ok());
    assert_eq!(controller.cancel_verification(), LastStep::ReturnReplyOf(CancelCall::Request(&7)));
    assert!(controller.qr_verification_replied(Ok(Some(5))).is_ok());
    assert_eq!(controller.cancel_verification(), LastStep::ReturnReplyOf(CancelCall::Qr(&5)));
}

// Short auth strings.

#[test]
fn starting_sas_needs_a_request() {
    assert_eq!(
        controller().start_sas_verification(),
        Step::Return(Err(error("Verification request missing.")))
    );
}

#[test]
fn failed_sas_start_is_reported_and_forgotten() {
    for reply in [Ok(None), Err(error("offline"))] {
        let mut controller = with_flow();
        assert_eq!(controller.start_sas_verification(), Step::Call(StartSasCall { request: &7 }));
        let start = controller.sas_start_replied(reply);
        assert_eq!(start.result, Ok(()));
        assert_eq!(callback(start.delivery), Some(Callback::DidFail));
        // A verification of the other side is accepted again.
        let pending = hand_out(&mut controller, "sas");
        assert_eq!(controller.install_sas_listener(pending, 2).next, accept("sas"));
    }
}

#[test]
fn local_start_is_taken_into_account_once() {
    let mut controller = with_flow();
    assert_eq!(controller.start_sas_verification(), Step::Call(StartSasCall { request: &7 }));
    let pending = hand_out(&mut controller, "ours");
    let handoff = controller.install_sas_listener(pending, 2);
    assert_eq!(handoff.next, HandoffNext::Stop);
    assert_eq!(callback(handoff.delivery), Some(Callback::DidStartSasVerification));
    let pending = hand_out(&mut controller, "theirs");
    let handoff = controller.install_sas_listener(pending, 3);
    assert_eq!(handoff.abort, vec![2]);
    assert_eq!(handoff.next, accept("theirs"));
    assert_eq!(callback(handoff.delivery), None);
}

#[test]
fn the_sas_that_was_handed_out_is_accepted() {
    let mut controller = with_flow();
    let first = hand_out(&mut controller, "first");
    let second = hand_out(&mut controller, "second");
    assert_eq!(controller.install_sas_listener(first, 2).next, accept("first"));
    assert_eq!(controller.install_sas_listener(second, 3).next, accept("second"));
}

#[test]
fn accepting_sas_is_announced_or_reported() {
    let controller = with_flow();
    assert_eq!(
        callback(controller.sas_accept_replied(Ok(()))),
        Some(Callback::DidStartSasVerification)
    );
    assert_eq!(
        callback(controller.sas_accept_replied(Err(error("offline")))),
        Some(Callback::DidFail)
    );
}

#[test]
fn answers_go_to_the_sas_that_the_request_turned_into() {
    let mut controller = with_flow();
    assert_eq!(
        controller.decline_verification(),
        LastStep::Return(Err(error("SAS verification missing")))
    );
    controller.listen_to_verification_request_changes(sas("sas"), true);
    assert_eq!(
        controller.approve_verification(),
        LastStep::ReturnReplyOf(SasAnswer::Confirm(&"sas"))
    );
    assert_eq!(
        controller.decline_verification(),
        LastStep::ReturnReplyOf(SasAnswer::Mismatch(&"sas"))
    );
}

#[test]
fn sas_listener_reports_the_end_once() {
    let controller = with_flow();
    let mut reported = Vec::new();
    for change in [
        SasState::Created,
        SasState::Started,
        SasState::Accepted,
        SasState::KeysExchanged { emojis: None, decimals: (1, 2, 3) },
        SasState::Confirmed,
        SasState::Done,
        SasState::Cancelled,
    ] {
        let turn = controller.listen_to_sas_verification_changes(change);
        reported.extend(callback(turn.delivery));
        if turn.next == ListenerNext::Stop {
            break;
        }
    }
    assert_eq!(
        reported,
        vec![
            Callback::DidReceiveVerificationData {
                data: SessionVerificationData::Decimals { values: vec![1, 2, 3] }
            },
            Callback::DidFinish,
        ]
    );
    let turn = controller.listen_to_sas_verification_changes(SasState::Cancelled);
    assert_eq!(turn.next, ListenerNext::Stop);
    assert_eq!(callback(turn.delivery), Some(Callback::DidCancel));
}

// QR codes.

#[test]
fn qr_codes_need_a_request() {
    let mut controller = controller();
    assert_eq!(
        controller.generate_qr_verification_code(),
        Step::Return(Err(error("Verification request missing.")))
    );
    // The missing request is reported even if the data is wrong too.
    assert_eq!(
        controller.scan_qr_verification_code(Err::<u8, String>("too short".into())),
        Step::Return(Err(error("Verification request missing.")))
    );
}

#[test]
fn wrong_qr_data_changes_nothing() {
    let mut controller = with_flow();
    assert!(controller.qr_verification_replied(Ok(Some(5))).is_ok());
    assert_eq!(controller.install_qr_listener(2), vec![1]);
    assert_eq!(
        controller.scan_qr_verification_code(Err::<u8, String>("too short".into())),
        Step::Return(Err(error("Invalid QR verification data: too short")))
    );
    assert_eq!(
        controller.confirm_qr_verification(),
        LastStep::ReturnReplyOf(ConfirmQrCall { qr: &5 })
    );
    assert_eq!(controller.abort_all(), vec![2]);
}

#[test]
fn failed_scan_leaves_the_request_listener() {
    let mut controller = with_flow();
    assert!(controller.qr_verification_replied(Ok(Some(5))).is_ok());
    assert_eq!(controller.install_qr_listener(2), vec![1]);
    let start = match controller.scan_qr_verification_code(Ok::<u8, String>(9)) {
        Step::Call(start) => start,
        Step::Return(_) => panic!("the scan must begin"),
    };
    assert_eq!(start.handover.abort, vec![2]);
    assert_eq!(
        controller.install_scan_listener(start.scan, 3),
        ScanCall { abort: None, request: Arc::new(7), data: 9 }
    );
    assert_eq!(
        controller.qr_verification_replied(Ok(None)),
        Err(error("QR verification is unavailable."))
    );
    assert_eq!(
        controller.qr_verification_replied(Err(error("offline"))),
        Err(error("offline"))
    );
    assert_eq!(
        controller.confirm_qr_verification(),
        LastStep::Return(Err(error("QR verification missing")))
    );
    assert_eq!(controller.abort_all(), vec![3]);
}

#[test]
fn scanning_replaces_the_request_listener() {
    let mut controller = with_flow();
    let start = match controller.scan_qr_verification_code(Ok::<u8, String>(9)) {
        Step::Call(start) => start,
        Step::Return(_) => panic!("the scan must begin"),
    };
    assert_eq!(start.handover, Handover { abort: vec![], listen: Listener::Request });
    assert_eq!(
        controller.install_scan_listener(start.scan, 2),
        ScanCall { abort: Some(1), request: Arc::new(7), data: 9 }
    );
    assert_eq!(controller.abort_all(), vec![2]);
}

#[test]
fn encoding_errors_are_explained() {
    assert_eq!(qr_code_encoded(Ok(vec![1, 2])), Ok(vec![1, 2]));
    assert_eq!(
        qr_code_encoded(Err("too long".into())),
        Err(error("Failed encoding QR verification: too long"))
    );
}

#[test]
fn qr_listener_reports_the_end_once() {
    let controller = with_flow();
    let mut reported = Vec::new();
    for change in [
        QrVerificationState::Started,
        QrVerificationState::Scanned,
        QrVerificationState::Reciprocated,
        QrVerificationState::Confirmed,
        QrVerificationState::Done,
        QrVerificationState::Cancelled,
    ] {
        let turn = controller.listen_to_qr_verification_changes(change);
        reported.extend(callback(turn.delivery));
        if turn.next == ListenerNext::Stop {
            break;
        }
    }
    assert_eq!(
        reported,
        vec![
            Callback::DidUpdateQrVerification { state: SessionVerificationQrState::Scanned },
            Callback::DidUpdateQrVerification { state: SessionVerificationQrState::Reciprocated },
            Callback::DidUpdateQrVerification { state: SessionVerificationQrState::Confirmed },
            Callback::DidFinish,
        ]
    );
    let turn = controller.listen_to_qr_verification_changes(QrVerificationState::Cancelled);
    assert_eq!(turn.next, ListenerNext::Stop);
    assert_eq!(callback(turn.delivery), Some(Callback::DidCancel));
}

// The request listener and the delegate.

#[test]
fn request_listener_reports_the_end_once() {
    let mut controller = with_flow();
    let mut reported = Vec::new();
    let changes: Vec<Change> = vec![
        VerificationRequestState::Created,
        VerificationRequestState::Ready,
        VerificationRequestState::Transitioned { verification: Verification::QrV1(5) },
        VerificationRequestState::Transitioned { verification: Verification::Other },
        VerificationRequestState::Cancelled,
        VerificationRequestState::Done,
    ];
    for change in changes {
        let turn = controller.listen_to_verification_request_changes(change, true);
        reported.extend(callback(turn.delivery));
        if turn.next != RequestListenerNext::WaitForChange {
            break;
        }
    }
    assert_eq!(reported, vec![Callback::DidAcceptVerificationRequest, Callback::DidCancel]);
}

#[test]
fn ownerless_request_listener_stops() {
    let mut controller = with_flow();
    assert_eq!(controller.start_sas_verification(), Step::Call(StartSasCall { request: &7 }));
    let turn = controller.listen_to_verification_request_changes(sas("sas"), false);
    assert_eq!(turn.next, RequestListenerNext::Stop);
    assert_eq!(callback(turn.delivery), None);
    assert_eq!(
        controller.approve_verification(),
        LastStep::ReturnReplyOf(SasAnswer::Confirm(&"sas"))
    );
    // The local start has not been taken into account, and no listener was installed.
    let pending = hand_out(&mut controller, "later");
    assert_eq!(controller.install_sas_listener(pending, 2).next, HandoffNext::Stop);
    assert_eq!(controller.abort_all(), vec![1, 2]);

    // Other changes do not ask for an owner.
    let turn =
        controller.listen_to_verification_request_changes(VerificationRequestState::Ready, false);
    assert_eq!(turn.next, RequestListenerNext::WaitForChange);
    assert_eq!(callback(turn.delivery), Some(Callback::DidAcceptVerificationRequest));
}

#[test]
fn no_listener_escapes() {
    let mut controller = with_flow();
    let mut running = vec![1];
    let mut run = |installed: Option<u64>, aborted: Vec<u64>| -> Vec<u64> {
        running.extend(installed);
        running.retain(|handle| !aborted.contains(handle));
        running.clone()
    };
    let pending = hand_out(&mut controller, "sas");
    assert_eq!(run(Some(2), controller.install_sas_listener(pending, 2).abort), vec![1, 2]);
    assert!(controller.qr_verification_replied(Ok(Some(5))).is_ok());
    assert_eq!(run(Some(3), controller.install_qr_listener(3)), vec![3]);
    let start = match controller.scan_qr_verification_code(Ok::<u8, String>(9)) {
        Step::Call(start) => start,
        Step::Return(_) => panic!("the scan must begin"),
    };
    assert_eq!(run(None, start.handover.abort), Vec::<u64>::new());
    let previous = controller.install_scan_listener(start.scan, 4).abort;
    assert_eq!(run(Some(4), previous.into_iter().collect()), vec![4]);
    let previous = controller.install_request_listener(5);
    assert_eq!(run(Some(5), previous.into_iter().collect()), vec![5]);
    assert_eq!(run(None, controller.abort_all()), Vec::<u64>::new());
}

#[test]
fn each_listener_is_held_or_aborted_once() {
    let mut controller = with_flow();
    let mut aborted = Vec::new();
    let pending = hand_out(&mut controller, "sas");
    aborted.extend(controller.install_sas_listener(pending, 2).abort);
    let pending = hand_out(&mut controller, "sas");
    aborted.extend(controller.install_sas_listener(pending, 3).abort);
    assert_eq!(aborted, vec![2]);
    aborted.extend(controller.install_qr_listener(4));
    assert_eq!(aborted, vec![2, 3, 1]);
    aborted.extend(controller.install_request_listener(5));
    assert_eq!(aborted, vec![2, 3, 1]);
    aborted.extend(controller.set_ongoing_verification_request(8, DONE).unwrap().abort);
    assert_eq!(aborted, vec![2, 3, 1, 5, 4]);
    aborted.extend(controller.install_request_listener(6));
    aborted.extend(controller.abort_all());
    assert_eq!(aborted, vec![2, 3, 1, 5, 4, 6]);
    assert_eq!(controller.abort_all(), Vec::<u64>::new());
}

#[test]
fn without_a_delegate_there_is_no_delivery() {
    let mut controller = with_flow();
    controller.set_delegate(None);
    assert!(controller.current_delegate().is_none());
    let turn =
        controller.listen_to_verification_request_changes(VerificationRequestState::Done, true);
    assert_eq!(turn.next, RequestListenerNext::Stop);
    assert_eq!(callback(turn.delivery), None);
    let turn = controller.listen_to_sas_verification_changes(SasState::Done);
    assert_eq!(turn.next, ListenerNext::Stop);
    assert_eq!(callback(turn.delivery), None);
    assert_eq!(callback(controller.sas_start_replied(Ok(None)).delivery), None);

    let attached = Arc::new(Quiet);
    controller.set_delegate(Some(attached.clone()));
    let turn =
        controller.listen_to_verification_request_changes(VerificationRequestState::Done, true);
    let delivery = turn.delivery.unwrap();
    assert!(Arc::ptr_eq(&delivery.delegate, &attached));
}

#[test]
fn someone_always_listens() {
    let mut controller = with_flow();
    let pending = hand_out(&mut controller, "sas");
    assert_eq!(controller.install_sas_listener(pending, 2).abort, Vec::<u64>::new());
    assert!(controller.qr_verification_replied(Ok(None)).is_err());
    assert!(controller.verification_requested(Ok(8), ONGOING).is_err());
    assert!(controller.qr_verification_replied(Ok(Some(5))).is_ok());
    assert_eq!(controller.install_qr_listener(3), vec![2, 1]);
    controller.set_delegate(None);
    assert_eq!(controller.start_sas_verification(), Step::Call(StartSasCall { request: &7 }));
    assert_eq!(controller.sas_start_replied(Ok(None)).result, Ok(()));
    assert_eq!(controller.abort_all(), vec![3]);
}
