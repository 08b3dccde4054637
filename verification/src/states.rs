//! The states that a verification flow goes through, as far as decisions depend on them.

use vstd::prelude::*;

use crate::data::Timestamp;

verus! {

/// One of the emojis of a short auth string.
#[derive(Debug, Clone, Copy, PartialEq, Eq)]
pub struct Emoji {
    pub symbol: &'static str,
    pub description: &'static str,
}

/// A short auth string in its emoji form: seven emojis, and the index of each in the table of
/// all emojis.
#[derive(Debug, PartialEq, Eq)]
pub struct EmojiShortAuthString {
    pub indices: [u8; 7],
    pub emojis: [Emoji; 7],
}

/// The state of a short auth string (SAS) verification.
#[derive(Debug, PartialEq, Eq)]
pub enum SasState {
    Created,
    Started,
    Accepted,
    /// Both sides know the short auth string. The emoji form is there if both support it.
    KeysExchanged { emojis: Option<EmojiShortAuthString>, decimals: (u16, u16, u16) },
    /// Our side has confirmed that the strings match.
    Confirmed,
    Done,
    Cancelled,
}

/// The state of a QR code verification.
#[derive(Debug, Clone, Copy, PartialEq, Eq, Structural)]
pub enum QrVerificationState {
    Started,
    /// The other side has scanned the code that we show.
    Scanned,
    /// Our side has confirmed that the other side scanned the code.
    Confirmed,
    /// We have scanned the code of the other side.
    Reciprocated,
    Done,
    Cancelled,
}

/// The concrete verification that a request turned into.
#[derive(Debug, PartialEq, Eq)]
pub enum Verification<S, Q> {
    SasV1(S),
    QrV1(Q),
    /// A kind of verification that the controller does not take part in.
    Other,
}

/// The other device that takes part in a verification request.
#[derive(Debug, PartialEq, Eq)]
pub struct DeviceData {
    pub device_id: String,
    pub display_name: Option<String>,
    pub first_time_seen_ts: Timestamp,
}

/// The state of a verification request.
#[derive(Debug, PartialEq, Eq)]
pub enum VerificationRequestState<S, Q> {
    /// We have made the request.
    Created,
    /// The other device has made the request.
    Requested { other_device_data: DeviceData },
    /// Both sides have agreed to verify.
    Ready,
    /// The request has turned into a concrete verification.
    Transitioned { verification: Verification<S, Q> },
    Done,
    Cancelled,
}

/// How far a verification request has got.
#[derive(Debug, Clone, Copy, PartialEq, Eq, Structural)]
pub struct FlowStatus {
    pub is_done: bool,
    pub is_cancelled: bool,
}

impl FlowStatus {
    /// Whether the flow is neither done nor cancelled.
    pub open spec fn is_ongoing(self) -> bool {
        !self.is_done && !self.is_cancelled
    }
}

} // verus!
