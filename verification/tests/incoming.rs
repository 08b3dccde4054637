use session_verification::controller::incoming::{
    cross_signing_replied, incoming_request_replied, FoundRequest, Ignored, IncomingCall,
    PendingRequest,
};
use session_verification::controller::SessionVerificationController;
use session_verification::data::{
    SessionVerificationData, SessionVerificationQrState, SessionVerificationRequestDetails,
    Timestamp, UserProfile,
};
use session_verification::delegate::{Callback, SessionVerificationControllerDelegate};
use session_verification::error::ClientError;
use session_verification::states::{DeviceData, VerificationRequestState};
use session_verification::steps::RequestLookUp;
use std::sync::Arc;

/// A delegate that does nothing.
struct Quiet;

impl SessionVerificationControllerDelegate for Quiet {
    fn did_receive_verification_request(&self, _: SessionVerificationRequestDetails) {}
    fn did_accept_verification_request(&self) {}
    fn did_start_sas_verification(&self) {}
    fn did_receive_verification_data(&self, _: SessionVerificationData) {}
    fn did_update_qr_verification(&self, _: SessionVerificationQrState) {}
    fn did_fail(&self) {}
    fn did_cancel(&self) {}
    fn did_finish(&self) {}
}

type Controller = SessionVerificationController<Quiet, u64, u64, u64, u64>;

fn controller() -> Controller {
    let mut controller = Controller::new("@alice:example.org".to_owned());
    controller.set_delegate(Some(Arc::new(Quiet)));
    controller
}

fn device() -> DeviceData {
    DeviceData {
        device_id: "DEVICE".into(),
        display_name: Some("Phone".into()),
        first_time_seen_ts: Timestamp(1_700_000_000_000),
    }
}

fn profile() -> UserProfile {
    UserProfile {
        user_id: "@bob:example.org".into(),
        display_name: Some("Bob".into()),
        avatar_url: None,
    }
}

fn look_up(sender: &str) -> RequestLookUp {
    RequestLookUp { sender_id: sender.into(), flow_id: "flow".into() }
}

fn bob() -> String {
    "@bob:example.org".into()
}

fn pending() -> PendingRequest {
    PendingRequest {
        sender_id: "@bob:example.org".into(),
        flow_id: "flow".into(),
        other_device_data: device(),
    }
}

#[test]
fn own_requests_need_no_cross_signing() {
    assert_eq!(
        controller()
            .process_incoming_verification_request("@alice:example.org".into(), "flow".into()),
        IncomingCall::VerificationRequest(look_up("@alice:example.org"))
    );
}

#[test]
fn requests_of_others_need_cross_signing() {
    assert_eq!(
        controller()
            .process_incoming_verification_request("@bob:example.org".into(), "flow".into()),
        IncomingCall::CrossSigningStatus { then: look_up("@bob:example.org") }
    );
    let bob = || look_up("@bob:example.org");
    assert_eq!(cross_signing_replied(bob(), Some(true)), Ok(bob()));
    assert_eq!(cross_signing_replied(bob(), None), Ok(bob()));
    assert_eq!(cross_signing_replied(bob(), Some(false)), Err(Ignored::CrossSigningIncomplete));
}

#[test]
fn unknown_requests_are_ignored() {
    assert_eq!(incoming_request_replied::<u64, u64>(bob(), None), Err(Ignored::UnknownRequest));
}

#[test]
fn only_requested_requests_are_pending() {
    let found = |state| FoundRequest::<u64, u64> { flow_id: "flow".into(), state };
    assert_eq!(
        incoming_request_replied(bob(), Some(found(VerificationRequestState::Requested {
            other_device_data: device()
        }))),
        Ok(pending())
    );
    assert_eq!(
        incoming_request_replied(bob(), Some(found(VerificationRequestState::Created))),
        Err(Ignored::WrongState)
    );
    assert_eq!(
        incoming_request_replied(bob(), Some(found(VerificationRequestState::Ready))),
        Err(Ignored::WrongState)
    );
    assert_eq!(
        incoming_request_replied(bob(), Some(found(VerificationRequestState::Done))),
        Err(Ignored::WrongState)
    );
}

#[test]
fn the_delegate_hears_who_asks() {
    let delivery = match controller().profile_replied(pending(), Ok(profile())) {
        Ok(Some(delivery)) => delivery,
        _ => panic!("the delegate must hear about the request"),
    };
    assert_eq!(
        delivery.callback,
        Callback::DidReceiveVerificationRequest {
            details: SessionVerificationRequestDetails {
                sender_profile: profile(),
                flow_id: "flow".into(),
                device_id: "DEVICE".into(),
                device_display_name: Some("Phone".into()),
                first_seen_timestamp: Timestamp(1_700_000_000_000),
            }
        }
    );
}

#[test]
fn requests_without_a_profile_are_ignored() {
    let offline = ClientError { msg: "offline".into(), details: None };
    assert!(matches!(
        controller().profile_replied(pending(), Err(offline)),
        Err(Ignored::UnknownProfile)
    ));
}

#[test]
fn without_a_delegate_nobody_hears() {
    let mut controller = controller();
    controller.set_delegate(None);
    assert!(matches!(controller.profile_replied(pending(), Ok(profile())), Ok(None)));
}
