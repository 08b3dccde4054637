//! What a delegate is told and what the other side is offered.

use std::sync::Arc;
use vstd::prelude::*;

use crate::states::{DeviceData, Emoji, EmojiShortAuthString};

verus! {

/// A way to verify that we offer to the other side.
#[derive(Debug, Clone, Copy, PartialEq, Eq, Structural)]
pub enum VerificationMethod {
    /// Comparing short auth strings.
    SasV1,
    /// Scanning the QR code of the other side.
    QrCodeScanV1,
    /// Showing a QR code to the other side.
    QrCodeShowV1,
    /// Telling the other side that we have scanned its QR code.
    ReciprocateV1,
}

/// An emoji that both sides compare.
#[derive(Debug, PartialEq, Eq)]
pub struct SessionVerificationEmoji {
    symbol: String,
    description: String,
}

/// The texts of a [`SessionVerificationEmoji`].
pub struct EmojiView {
    pub symbol: Seq<char>,
    pub description: Seq<char>,
}

impl View for SessionVerificationEmoji {
    type V = EmojiView;

    closed spec fn view(&self) -> EmojiView {
        EmojiView { symbol: self.symbol@, description: self.description@ }
    }
}

impl SessionVerificationEmoji {
    /// The emoji itself.
    pub fn symbol(&self) -> (symbol: String)
        ensures
            symbol@ == self@.symbol,
    {
        self.symbol.clone()
    }

    /// The name of the emoji.
    pub fn description(&self) -> (description: String)
        ensures
            description@ == self@.description,
    {
        self.description.clone()
    }
}

/// What both sides compare to see that they talk to each other.
#[derive(Debug, PartialEq, Eq)]
pub enum SessionVerificationData {
    Emojis { emojis: Vec<Arc<SessionVerificationEmoji>>, indices: Vec<u8> },
    Decimals { values: Vec<u16> },
}

/// The contents of a [`SessionVerificationData`].
#[verifier::ext_equal]
pub enum SessionVerificationDataView {
    Emojis { emojis: Seq<EmojiView>, indices: Seq<u8> },
    Decimals { values: Seq<u16> },
}

impl View for SessionVerificationData {
    type V = SessionVerificationDataView;

    open spec fn view(&self) -> SessionVerificationDataView {
        match self {
            SessionVerificationData::Emojis { emojis, indices } => {
                SessionVerificationDataView::Emojis {
                    emojis: emojis@.map_values(|emoji: Arc<SessionVerificationEmoji>| emoji@),
                    indices: indices@,
                }
            },
            SessionVerificationData::Decimals { values } => {
                SessionVerificationDataView::Decimals { values: values@ }
            },
        }
    }
}

/// What there is to compare for a short auth string: its emojis where it has an emoji form, and
/// else its three numbers.
pub open spec fn data_to_compare(
    emojis: Option<EmojiShortAuthString>,
    decimals: (u16, u16, u16),
) -> SessionVerificationDataView {
    match emojis {
        Some(string) => SessionVerificationDataView::Emojis {
            emojis: string.emojis@.map_values(
                |emoji: Emoji| EmojiView { symbol: emoji.symbol@, description: emoji.description@ },
            ),
            indices: string.indices@,
        },
        None => SessionVerificationDataView::Decimals {
            values: seq![decimals.0, decimals.1, decimals.2],
        },
    }
}

impl SessionVerificationData {
    /// What there is to compare for this short auth string.
    pub fn of_short_auth_string(
        emojis: Option<EmojiShortAuthString>,
        decimals: (u16, u16, u16),
    ) -> (data: SessionVerificationData)
        ensures
            data@ == data_to_compare(emojis, decimals),
    {
        match emojis {
            Some(string) => {
                let mut shown: Vec<Arc<SessionVerificationEmoji>> = Vec::new();
                let mut indices: Vec<u8> = Vec::new();
                for i in 0..7usize
                    invariant
                        shown@.len() == i,
                        indices@.len() == i,
                        forall|j: int|
                            0 <= j < i ==> (#[trigger] shown@[j])@ == (EmojiView {
                                symbol: string.emojis@[j].symbol@,
                                description: string.emojis@[j].description@,
                            }),
                        forall|j: int| 0 <= j < i ==> indices@[j] == string.indices@[j],
                {
                    let emoji: Emoji = string.emojis[i];
                    shown.push(
                        Arc::new(
                            SessionVerificationEmoji {
                                symbol: emoji.symbol.to_owned(),
                                description: emoji.description.to_owned(),
                            },
                        ),
                    );
                    indices.push(string.indices[i]);
                }
                let data = SessionVerificationData::Emojis { emojis: shown, indices };
                assert(data@ =~~= data_to_compare(emojis, decimals));
                data
            },
            None => {
                let data = SessionVerificationData::Decimals {
                    values: vec![decimals.0, decimals.1, decimals.2],
                };
                assert(data@ =~~= data_to_compare(emojis, decimals));
                data
            },
        }
    }
}

/// A change of a QR code verification that the delegate hears about.
#[derive(Debug, Clone, Copy, PartialEq, Eq, Structural)]
pub enum SessionVerificationQrState {
    Scanned,
    Reciprocated,
    Confirmed,
}

/// The profile of a user.
#[derive(Debug, PartialEq, Eq)]
pub struct UserProfile {
    pub user_id: String,
    pub display_name: Option<String>,
    pub avatar_url: Option<String>,
}

/// A point in time, in milliseconds since the Unix epoch.
#[derive(Debug, Clone, Copy, PartialEq, Eq, Structural)]
pub struct Timestamp(pub u64);

/// Details about an incoming verification request.
#[derive(Debug, PartialEq, Eq)]
pub struct SessionVerificationRequestDetails {
    pub sender_profile: UserProfile,
    pub flow_id: String,
    pub device_id: String,
    pub device_display_name: Option<String>,
    /// First time this device was seen in milliseconds since epoch.
    pub first_seen_timestamp: Timestamp,
}

impl SessionVerificationRequestDetails {
    /// The details of the request `flow_id` that the user with this profile sent from `device`.
    pub open spec fn of_request(
        sender_profile: UserProfile,
        flow_id: String,
        device: DeviceData,
    ) -> SessionVerificationRequestDetails {
        SessionVerificationRequestDetails {
            sender_profile,
            flow_id,
            device_id: device.device_id,
            device_display_name: device.display_name,
            first_seen_timestamp: device.first_time_seen_ts,
        }
    }
}

} // verus!
