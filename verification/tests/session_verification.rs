use session_verification::controller::SessionVerificationController;
use session_verification::data::{
    SessionVerificationData, SessionVerificationQrState, SessionVerificationRequestDetails,
    VerificationMethod,
};
use session_verification::delegate::{
    Callback, Delivery, SessionVerificationControllerDelegate,
};
use session_verification::states::{FlowStatus, Verification, VerificationRequestState};
use session_verification::steps::{
    ConfirmQrCall, GenerateQrCall, HandoffNext, Handover, LastStep, Listener, PendingSas,
    RequestListenerNext, ScanCall, StartSasCall, Step,
};
use std::sync::{Arc, Mutex, RwLock};

type Controller =
    SessionVerificationController<dyn SessionVerificationControllerDelegate, u64, u64, u64, u64>;

const NO_FLOW: FlowStatus = FlowStatus { is_done: false, is_cancelled: false };

/// Remembers the callbacks that it received.
struct RecordingDelegate {
    callbacks: Mutex<Vec<&'static str>>,
}

impl RecordingDelegate {
    fn record(&self, callback: &'static str) {
        self.callbacks.lock().unwrap().push(callback);
    }
}

impl SessionVerificationControllerDelegate for RecordingDelegate {
    fn did_receive_verification_request(&self, _: SessionVerificationRequestDetails) {
        self.record("did_receive_verification_request");
    }
    fn did_accept_verification_request(&self) {
        self.record("did_accept_verification_request");
    }
    fn did_start_sas_verification(&self) {
        self.record("did_start_sas_verification");
    }
    fn did_receive_verification_data(&self, _: SessionVerificationData) {
        self.record("did_receive_verification_data");
    }
    fn did_update_qr_verification(&self, _: SessionVerificationQrState) {
        self.record("did_update_qr_verification");
    }
    fn did_fail(&self) {
        self.record("did_fail");
    }
    fn did_cancel(&self) {
        self.record("did_cancel");
    }
    fn did_finish(&self) {
        self.record("did_finish");
    }
}

/// A controller with a recording delegate and an ongoing flow whose request is 7 and whose request
/// listener has the handle 1.
fn controller_with_flow() -> (Controller, Arc<RecordingDelegate>) {
    let delegate = Arc::new(RecordingDelegate { callbacks: Mutex::new(Vec::new()) });
    let mut controller = Controller::new("@alice:example.org".to_owned());
    let attached: Arc<dyn SessionVerificationControllerDelegate> = delegate.clone();
    controller.set_delegate(Some(attached));
    let handover = controller.set_ongoing_verification_request(7, NO_FLOW).unwrap();
    assert_eq!(handover, Handover { abort: vec![], listen: Listener::Request });
    assert_eq!(controller.install_request_listener(1), None);
    (controller, delegate)
}

fn deliver(delivery: Option<Delivery<dyn SessionVerificationControllerDelegate>>) {
    if let Some(delivery) = delivery {
        delivery.deliver();
    }
}

fn transitioned_to_sas(sas: u64) -> VerificationRequestState<u64, u64> {
    VerificationRequestState::Transitioned { verification: Verification::SasV1(sas) }
}

/// The short auth string verification that a turn hands out to be listened to.
fn pending_sas(next: RequestListenerNext<PendingSas<u64>>) -> PendingSas<u64> {
    match next {
        RequestListenerNext::SpawnSasListener(pending) => pending,
        _ => panic!("a listener must be spawned"),
    }
}

#[test]
fn advertises_post_login_qr_and_sas_methods() {
    assert_eq!(
        Controller::supported_verification_methods(),
        vec![
            VerificationMethod::SasV1,
            VerificationMethod::QrCodeScanV1,
            VerificationMethod::QrCodeShowV1,
            VerificationMethod::ReciprocateV1,
        ]
    );
}

/// A delegate that detaches itself from within a callback.
struct ReentrantDelegate {
    slot: Arc<RwLock<Controller>>,
}

impl SessionVerificationControllerDelegate for ReentrantDelegate {
    fn did_cancel(&self) {
        self.slot.write().unwrap().set_delegate(None);
    }
    fn did_receive_verification_request(&self, _: SessionVerificationRequestDetails) {}
    fn did_accept_verification_request(&self) {}
    fn did_start_sas_verification(&self) {}
    fn did_receive_verification_data(&self, _: SessionVerificationData) {}
    fn did_update_qr_verification(&self, _: SessionVerificationQrState) {}
    fn did_fail(&self) {}
    fn did_finish(&self) {}
}

#[test]
fn invoking_a_callback_does_not_hold_the_delegate_read_guard() {
    let slot = Arc::new(RwLock::new(Controller::new("@alice:example.org".to_owned())));
    slot.write().unwrap().set_delegate(Some(Arc::new(ReentrantDelegate { slot: slot.clone() })));

    // The delegate that comes back owns its share, so the guard is released before the callback
    // runs. If the guard had to be held, detaching within the callback would deadlock here.
    let current = slot.read().unwrap().current_delegate();
    if let Some(delegate) = current {
        delegate.did_cancel();
    }

    assert!(
        slot.read().unwrap().current_delegate().is_none(),
        "delegate should have detached itself"
    );
}

#[test]
fn a_delivery_can_detach_the_delegate() {
    let slot = Arc::new(RwLock::new(Controller::new("@alice:example.org".to_owned())));
    slot.write().unwrap().set_delegate(Some(Arc::new(ReentrantDelegate { slot: slot.clone() })));

    let cancelled = VerificationRequestState::Cancelled;
    let turn = slot.write().unwrap().listen_to_verification_request_changes(cancelled, true);
    deliver(turn.delivery);

    let done = VerificationRequestState::Done;
    let turn = slot.write().unwrap().listen_to_verification_request_changes(done, true);
    assert!(turn.delivery.is_none());
}

#[test]
fn request_listener_transfers_terminal_ownership_when_sas_transitions() {
    let (mut controller, delegate) = controller_with_flow();

    let turn = controller.listen_to_verification_request_changes(transitioned_to_sas(3), true);
    assert!(turn.delivery.is_none());
    let pending = pending_sas(turn.next);
    assert_eq!(*pending.sas(), 3);

    let handoff = controller.install_sas_listener(pending, 2);
    assert_eq!(handoff.abort, Vec::<u64>::new());
    assert_eq!(handoff.next, HandoffNext::AcceptSas(Arc::new(3)));
    deliver(handoff.delivery);

    // The reply to accepting is the last thing that the request listener deals with.
    deliver(controller.sas_accept_replied(Ok(())));
    assert_eq!(*delegate.callbacks.lock().unwrap(), vec!["did_start_sas_verification"]);
    assert_eq!(controller.abort_all(), vec![1, 2], "the SAS listener must be installed");

    // When we started the verification, nothing is left to accept.
    let (mut controller, delegate) = controller_with_flow();
    assert_eq!(controller.start_sas_verification(), Step::Call(StartSasCall { request: &7 }));
    let turn = controller.listen_to_verification_request_changes(transitioned_to_sas(3), true);
    let handoff = controller.install_sas_listener(pending_sas(turn.next), 2);
    assert_eq!(handoff.next, HandoffNext::Stop, "SAS transition must stop the request listener");
    deliver(handoff.delivery);
    assert_eq!(*delegate.callbacks.lock().unwrap(), vec!["did_start_sas_verification"]);
}

#[test]
fn request_listener_stops_after_direct_terminal_events() {
    let (mut controller, delegate) = controller_with_flow();

    let done =
        controller.listen_to_verification_request_changes(VerificationRequestState::Done, true);
    assert_eq!(done.next, RequestListenerNext::Stop);
    deliver(done.delivery);
    assert_eq!(*delegate.callbacks.lock().unwrap(), vec!["did_finish"]);

    let cancelled = controller
        .listen_to_verification_request_changes(VerificationRequestState::Cancelled, true);
    assert_eq!(cancelled.next, RequestListenerNext::Stop);
    deliver(cancelled.delivery);
    assert_eq!(*delegate.callbacks.lock().unwrap(), vec!["did_finish", "did_cancel"]);
}

#[test]
fn locally_started_sas_has_only_the_request_listener_as_owner() {
    let (mut controller, delegate) = controller_with_flow();

    assert_eq!(controller.start_sas_verification(), Step::Call(StartSasCall { request: &7 }));
    let start = controller.sas_start_replied(Ok(Some(3)));
    assert_eq!(start.result, Ok(()));
    assert!(start.delivery.is_none());

    // Starting announced nothing and installed no listener.
    assert_eq!(*delegate.callbacks.lock().unwrap(), Vec::<&str>::new());
    assert_eq!(controller.abort_all(), vec![1]);
}

#[test]
fn qr_replacement_uses_one_cancellable_concrete_listener() {
    let (mut controller, _delegate) = controller_with_flow();

    // Showing a code installs a concrete listener in place of the request listener.
    assert_eq!(
        controller.generate_qr_verification_code(),
        Step::Call(GenerateQrCall { request: &7 })
    );
    let handover = controller.qr_verification_replied(Ok(Some(5))).unwrap();
    assert_eq!(handover, Handover { abort: vec![], listen: Listener::Qr });
    assert_eq!(controller.install_qr_listener(2), vec![1]);

    // Scanning aborts it and asks for a request listener. The data is still held back.
    let start = match controller.scan_qr_verification_code(Ok("data")) {
        Step::Call(start) => start,
        Step::Return(_) => panic!("the scan must begin"),
    };
    assert_eq!(start.handover, Handover { abort: vec![2], listen: Listener::Request });
    assert_eq!(*start.scan.request(), 7);

    // What releases the data to be scanned is that the request listener is installed.
    assert_eq!(
        controller.install_scan_listener(start.scan, 3),
        ScanCall { abort: None, request: Arc::new(7), data: "data" },
        "request fallback must be restored before fallible QR reciprocation"
    );

    // When the scan has succeeded, its listener is the only one.
    let handover = controller.qr_verification_replied(Ok(Some(6))).unwrap();
    assert_eq!(handover, Handover { abort: vec![], listen: Listener::Qr });
    assert_eq!(controller.install_qr_listener(4), vec![3]);
    assert_eq!(
        controller.confirm_qr_verification(),
        LastStep::ReturnReplyOf(ConfirmQrCall { qr: &6 })
    );
    assert_eq!(controller.abort_all(), vec![4]);
}

#[test]
fn qr_transition_keeps_request_fallback_until_concrete_listener_is_installed() {
    let (mut controller, delegate) = controller_with_flow();

    let turn = controller.listen_to_verification_request_changes(
        VerificationRequestState::Transitioned { verification: Verification::QrV1(5) },
        true,
    );
    assert!(turn.delivery.is_none());
    assert_eq!(turn.next, RequestListenerNext::WaitForChange);

    // The request listener still reports the end.
    let turn = controller
        .listen_to_verification_request_changes(VerificationRequestState::Cancelled, true);
    deliver(turn.delivery);
    assert_eq!(*delegate.callbacks.lock().unwrap(), vec!["did_cancel"]);

    // A SAS of the other side is accepted by the step that has its listener installed.
    let turn = controller.listen_to_verification_request_changes(transitioned_to_sas(3), true);
    let handoff = controller.install_sas_listener(pending_sas(turn.next), 2);
    assert_eq!(handoff.next, HandoffNext::AcceptSas(Arc::new(3)));
    assert_eq!(
        controller.abort_all(),
        vec![1, 2],
        "incoming SAS must install terminal observation before its fallible accept"
    );
}

#[test]
fn callbacks_reach_the_method_of_their_name() {
    let (mut controller, delegate) = controller_with_flow();
    let turn =
        controller.listen_to_verification_request_changes(VerificationRequestState::Ready, true);
    assert_eq!(turn.next, RequestListenerNext::WaitForChange);
    let delivery = turn.delivery.unwrap();
    assert_eq!(delivery.callback, Callback::DidAcceptVerificationRequest);
    delivery.deliver();
    assert_eq!(*delegate.callbacks.lock().unwrap(), vec!["did_accept_verification_request"]);
}
