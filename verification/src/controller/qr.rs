//! Showing, scanning and confirming QR codes.

use vstd::prelude::*;

use super::SessionVerificationController;
use crate::error::{plain_error, ClientError};
use crate::listener_tasks::slot;
use crate::model::Move;
use crate::sharing::share;
use crate::steps::{
    ends_with_error, fails_with, returns_error, ConfirmQrCall, GenerateQrCall, Handover, LastStep,
    Listener, PendingScan, ScanCall, ScanStart, Step,
};

verus! {

/// The bytes of the QR code to show, once it has been encoded or has failed to be.
pub fn qr_code_encoded(encoded: Result<Vec<u8>, String>) -> (result: Result<Vec<u8>, ClientError>)
    ensures
        match encoded {
            Ok(bytes) => result == Ok::<Vec<u8>, ClientError>(bytes),
            Err(cause) => fails_with(
                result,
                plain_error("Failed encoding QR verification: "@ + cause@),
            ),
        },
{
    match encoded {
        Ok(bytes) => Ok(bytes),
        Err(cause) => Err(
            ClientError::caused_by("Failed encoding QR verification: ", cause.as_str()),
        ),
    }
}

impl<D: ?Sized, R, S, Q, H> SessionVerificationController<D, R, S, Q, H> {
    /// Generate raw Matrix QR verification bytes for another signed-in device to scan. These bytes
    /// must be encoded directly into a QR image.
    ///
    /// The request is asked for a QR code verification, and the reply goes to
    /// [`Self::qr_verification_replied`].
    pub fn generate_qr_verification_code(&self) -> (step: Step<GenerateQrCall<'_, R>, Vec<u8>>)
        ensures
            match self@.verification_request {
                Some(request) => step matches Step::Call(call) && *call.request == request,
                None => returns_error(step, plain_error("Verification request missing."@)),
            },
    {
        match &self.verification_request {
            Some(request) => Step::Call(GenerateQrCall { request: &**request }),
            None => Step::Return(
                Err(ClientError::from_str("Verification request missing.", None)),
            ),
        }
    }

    /// Scan raw Matrix QR verification bytes from another signed-in device: `data` is what they
    /// were decoded to, or what is wrong with them.
    ///
    /// The previous concrete listener is aborted and a request listener is put in place before the
    /// request scans the data, since that may fail. The handle of the request listener goes to
    /// [`Self::install_scan_listener`], which releases the data.
    pub fn scan_qr_verification_code<T>(&mut self, data: Result<T, String>) -> (step: Step<
        ScanStart<R, H, T>,
        (),
    >)
        ensures
            match (old(self)@.verification_request, data) {
                (None, _) => final(self)@ == old(self)@ && returns_error(
                    step,
                    plain_error("Verification request missing."@),
                ),
                (Some(_), Err(cause)) => final(self)@ == old(self)@ && returns_error(
                    step,
                    plain_error("Invalid QR verification data: "@ + cause@),
                ),
                (Some(request), Ok(data)) => final(self)@ == old(self)@.after(Move::BeginScan) && (
                step matches Step::Call(start) && start.handover.abort@ == old(self)@.aborts(
                    Move::BeginScan,
                ) && start.handover.listen == Listener::Request && start.scan@.request == request
                    && start.scan@.data == data),
            },
    {
        match &self.verification_request {
            Some(request) => match data {
                Ok(data) => {
                    let scan = PendingScan::new(share(request), data);
                    self.qr_verification = None;
                    let mut abort: Vec<H> = Vec::new();
                    if let Some(concrete) = self.listener_tasks.abort_concrete_listener() {
                        abort.push(concrete);
                    }
                    Step::Call(
                        ScanStart { handover: Handover { abort, listen: Listener::Request }, scan },
                    )
                },
                Err(cause) => Step::Return(
                    Err(ClientError::caused_by("Invalid QR verification data: ", cause.as_str())),
                ),
            },
            None => Step::Return(
                Err(ClientError::from_str("Verification request missing.", None)),
            ),
        }
    }

    /// The request listener that a scan asked for has been spawned, and its task has this handle.
    /// It reports how the flow ends if scanning fails, so only now the data is released to be
    /// scanned. The reply of the request goes to [`Self::qr_verification_replied`].
    #[must_use]
    pub fn install_scan_listener<T>(&mut self, scan: PendingScan<R, T>, handle: H) -> (call:
        ScanCall<R, H, T>)
        ensures
            final(self)@ == old(self)@.after(Move::InstallRequestListener(handle)),
            call.abort == old(self)@.listener_tasks.request,
            slot(call.abort) == old(self)@.aborts(Move::InstallRequestListener(handle)),
            *call.request == scan@.request,
            call.data == scan@.data,
    {
        let abort: Option<H> = self.install_request_listener(handle);
        let (request, data) = scan.release();
        ScanCall { abort, request, data }
    }

    /// The reply of the request to being asked to show or to scan a QR code.
    ///
    /// An error is what the method that asked returns. Else the QR code verification is the
    /// ongoing one and gets a listener, whose handle goes to [`Self::install_qr_listener`]. A
    /// method that shows a code then returns what [`qr_code_encoded`] makes of it; one that scans
    /// a code succeeds.
    pub fn qr_verification_replied(&mut self, reply: Result<Option<Q>, ClientError>) -> (result:
        Result<Handover<H>, ClientError>)
        ensures
            match reply {
                Ok(Some(qr)) => final(self)@ == old(self)@.after(Move::AdoptQr(qr)) && (result matches Ok(
                    handover,
                ) && handover.abort@ == old(self)@.aborts(Move::AdoptQr(qr)) && handover.listen == Listener::Qr),
                Ok(None) => final(self)@ == old(self)@ && fails_with(
                    result,
                    plain_error("QR verification is unavailable."@),
                ),
                Err(error) => final(self)@ == old(self)@ && result == Err::<
                    Handover<H>,
                    ClientError,
                >(error),
            },
    {
        match reply {
            Ok(Some(qr)) => {
                self.qr_verification = Some(qr);
                Ok(Handover { abort: Vec::new(), listen: Listener::Qr })
            },
            Ok(None) => Err(ClientError::from_str("QR verification is unavailable.", None)),
            Err(error) => Err(error),
        }
    }

    /// A listener for the ongoing QR code verification has been spawned, and its task has this
    /// handle. From here on it reports how the flow ends. Returns the handles of the previous
    /// concrete listener and of the request listener, whose tasks are to be aborted.
    #[must_use]
    pub fn install_qr_listener(&mut self, handle: H) -> (abort: Vec<H>)
        ensures
            final(self)@ == old(self)@.after(Move::InstallQrListener(handle)),
            abort@ == old(self)@.aborts(Move::InstallQrListener(handle)),
    {
        self.listener_tasks.replace_concrete_listener(handle, true)
    }

    /// Confirm that the other signed-in device scanned the displayed QR code.
    pub fn confirm_qr_verification(&self) -> (step: LastStep<ConfirmQrCall<'_, Q>, ()>)
        ensures
            match self@.qr_verification {
                Some(qr) => step matches LastStep::ReturnReplyOf(call) && *call.qr == qr,
                None => ends_with_error(step, plain_error("QR verification missing"@)),
            },
    {
        match &self.qr_verification {
            Some(qr) => LastStep::ReturnReplyOf(ConfirmQrCall { qr }),
            None => LastStep::Return(Err(ClientError::from_str("QR verification missing", None))),
        }
    }
}

} // verus!
