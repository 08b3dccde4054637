//! What the controller asks its caller to do next.

use std::sync::Arc;
use vstd::prelude::*;

use crate::data::VerificationMethod;
use crate::delegate::Delivery;
use crate::error::{ClientError, ClientErrorView};

verus! {

/// How a method of the controller goes on.
#[derive(Debug, PartialEq, Eq)]
pub enum Step<C, T> {
    /// The method returns this.
    Return(Result<T, ClientError>),
    /// The method makes this call and hands the reply to the controller.
    Call(C),
}

/// How a method of the controller goes on and ends.
#[derive(Debug, PartialEq, Eq)]
pub enum LastStep<C, T> {
    /// The method returns this.
    Return(Result<T, ClientError>),
    /// The method makes this call, once and no other, and returns what the call returns.
    ReturnReplyOf(C),
}

/// To be looked up: the verification request `flow_id` of the user `sender_id`.
#[derive(Debug, PartialEq, Eq)]
pub struct RequestLookUp {
    pub sender_id: String,
    pub flow_id: String,
}

/// To be looked up: the identity of the user `user_id`.
#[derive(Debug, PartialEq, Eq)]
pub struct IdentityLookUp {
    pub user_id: String,
}

/// What decides whether a user can be asked to verify.
#[derive(Debug, Clone, Copy, PartialEq, Eq, Structural)]
pub struct IdentityStatus {
    pub is_verified: bool,
}

/// To be called: ask a device or a user to verify, and offer `methods`.
#[derive(Debug, PartialEq, Eq)]
pub struct RequestCall {
    pub methods: Vec<VerificationMethod>,
}

/// To be called: accept `request` and offer `methods`.
#[derive(Debug, PartialEq, Eq)]
pub struct AcceptCall<'a, R> {
    pub request: &'a R,
    pub methods: Vec<VerificationMethod>,
}

/// To be called: cancel this.
#[derive(Debug, PartialEq, Eq)]
pub enum CancelCall<'a, R, Q> {
    Request(&'a R),
    Qr(&'a Q),
}

/// To be called: let `request` start a short auth string verification.
#[derive(Debug, PartialEq, Eq)]
pub struct StartSasCall<'a, R> {
    pub request: &'a R,
}

/// To be called: answer a short auth string verification.
#[derive(Debug, PartialEq, Eq)]
pub enum SasAnswer<'a, S> {
    /// Confirm that the short auth strings match.
    Confirm(&'a S),
    /// Report that the short auth strings do not match.
    Mismatch(&'a S),
}

/// To be called: let `request` generate a QR code to show.
#[derive(Debug, PartialEq, Eq)]
pub struct GenerateQrCall<'a, R> {
    pub request: &'a R,
}

/// To be called: confirm that the other side scanned the code of `qr`.
#[derive(Debug, PartialEq, Eq)]
pub struct ConfirmQrCall<'a, Q> {
    pub qr: &'a Q,
}

/// A listener that the controller asks for.
#[derive(Debug, Clone, Copy, PartialEq, Eq, Structural)]
pub enum Listener {
    /// Listens to the ongoing request.
    Request,
    /// Listens to the ongoing QR code verification.
    Qr,
}

/// A change of listeners, to be carried out in this order: abort the tasks in `abort`, spawn the
/// listener `listen`, hand its handle to the controller.
#[derive(Debug, PartialEq, Eq)]
pub struct Handover<H> {
    pub abort: Vec<H>,
    pub listen: Listener,
}

/// A scan that has begun and waits for its request listener. It keeps the data to itself until
/// that listener is installed.
#[derive(Debug, PartialEq, Eq)]
pub struct PendingScan<R, T> {
    request: Arc<R>,
    data: T,
}

/// What a [`PendingScan`] will scan, and for which request.
pub struct PendingScanView<R, T> {
    pub request: R,
    pub data: T,
}

impl<R, T> View for PendingScan<R, T> {
    type V = PendingScanView<R, T>;

    closed spec fn view(&self) -> PendingScanView<R, T> {
        PendingScanView { request: *self.request, data: self.data }
    }
}

impl<R, T> PendingScan<R, T> {
    /// A scan of `data` for `request`.
    pub(crate) fn new(request: Arc<R>, data: T) -> (scan: Self)
        ensures
            scan@ == (PendingScanView { request: *request, data }),
    {
        PendingScan { request, data }
    }

    /// The request that scans, which is the one to listen to.
    pub fn request(&self) -> (request: &R)
        ensures
            *request == self@.request,
    {
        &*self.request
    }

    /// The request and the data.
    pub(crate) fn release(self) -> (released: (Arc<R>, T))
        ensures
            *released.0 == self@.request,
            released.1 == self@.data,
    {
        (self.request, self.data)
    }
}

/// A scan begins: carry out `handover`, and hand the handle of the new listener to the controller
/// together with `scan`.
#[derive(Debug, PartialEq, Eq)]
pub struct ScanStart<R, H, T> {
    pub handover: Handover<H>,
    pub scan: PendingScan<R, T>,
}

/// The request listener of a scan is installed: abort the task `abort`, then let `request` scan
/// `data`.
#[derive(Debug, PartialEq, Eq)]
pub struct ScanCall<R, H, T> {
    pub abort: Option<H>,
    pub request: Arc<R>,
    pub data: T,
}

/// How starting a short auth string verification ends: deliver `delivery`, return `result`.
pub struct SasStart<D: ?Sized> {
    pub delivery: Option<Delivery<D>>,
    pub result: Result<(), ClientError>,
}

/// A short auth string verification that the request turned into and that waits for its listener.
#[derive(Debug, PartialEq, Eq)]
pub struct PendingSas<S> {
    sas: Arc<S>,
}

impl<S> View for PendingSas<S> {
    type V = S;

    closed spec fn view(&self) -> S {
        *self.sas
    }
}

impl<S> PendingSas<S> {
    /// The verification `sas`, not listened to yet.
    pub(crate) fn new(sas: Arc<S>) -> (pending: Self)
        ensures
            pending@ == *sas,
    {
        PendingSas { sas }
    }

    /// The verification, which is the one to listen to.
    pub fn sas(&self) -> (sas: &S)
        ensures
            *sas == self@,
    {
        &*self.sas
    }

    /// The verification, which is listened to now.
    pub(crate) fn release(self) -> (sas: Arc<S>)
        ensures
            *sas == self@,
    {
        self.sas
    }
}

/// What the request listener does after its delivery. `P` stands for the short auth string
/// verification that the request turned into.
#[derive(Debug, PartialEq, Eq)]
pub enum RequestListenerNext<P> {
    /// It waits for the next change of the request.
    WaitForChange,
    /// It spawns a listener for this short auth string verification and hands over the handle.
    SpawnSasListener(P),
    /// It stops.
    Stop,
}

impl<S> View for RequestListenerNext<PendingSas<S>> {
    type V = RequestListenerNext<S>;

    open spec fn view(&self) -> RequestListenerNext<S> {
        match *self {
            RequestListenerNext::WaitForChange => RequestListenerNext::WaitForChange,
            RequestListenerNext::SpawnSasListener(pending) => {
                RequestListenerNext::SpawnSasListener(pending@)
            },
            RequestListenerNext::Stop => RequestListenerNext::Stop,
        }
    }
}

/// A turn of the request listener: deliver `delivery`, then do `next`.
pub struct RequestListenerTurn<D: ?Sized, S> {
    pub delivery: Option<Delivery<D>>,
    pub next: RequestListenerNext<PendingSas<S>>,
}

/// What the request listener does once the listener of a short auth string verification is in
/// place. `P` stands for that verification.
#[derive(Debug, PartialEq, Eq)]
pub enum HandoffNext<P> {
    /// It accepts this short auth string verification and hands over the reply.
    AcceptSas(P),
    /// It stops.
    Stop,
}

impl<S> View for HandoffNext<Arc<S>> {
    type V = HandoffNext<S>;

    open spec fn view(&self) -> HandoffNext<S> {
        match *self {
            HandoffNext::AcceptSas(sas) => HandoffNext::AcceptSas(*sas),
            HandoffNext::Stop => HandoffNext::Stop,
        }
    }
}

/// The request listener hands the flow to the listener of a short auth string verification: abort
/// the tasks in `abort`, deliver `delivery`, then do `next`.
pub struct SasHandoff<D: ?Sized, S, H> {
    pub abort: Vec<H>,
    pub delivery: Option<Delivery<D>>,
    pub next: HandoffNext<Arc<S>>,
}

/// What a concrete listener does after its delivery.
#[derive(Debug, Clone, Copy, PartialEq, Eq, Structural)]
pub enum ListenerNext {
    /// It waits for the next change.
    WaitForChange,
    /// It stops.
    Stop,
}

/// A turn of a concrete listener: deliver `delivery`, then do `next`.
pub struct ListenerTurn<D: ?Sized> {
    pub delivery: Option<Delivery<D>>,
    pub next: ListenerNext,
}

/// Whether `result` is the error with this content.
pub open spec fn fails_with<T>(result: Result<T, ClientError>, error: ClientErrorView) -> bool {
    result matches Err(e) && e@ == error
}

/// Whether a method returns the error with this content.
pub open spec fn returns_error<C, T>(step: Step<C, T>, error: ClientErrorView) -> bool {
    step matches Step::Return(result) && fails_with(result, error)
}

/// Whether a method returns the error with this content as its last step.
pub open spec fn ends_with_error<C, T>(step: LastStep<C, T>, error: ClientErrorView) -> bool {
    step matches LastStep::Return(result) && fails_with(result, error)
}

} // verus!
