use session_verification::data::SessionVerificationData;
use session_verification::states::{Emoji, EmojiShortAuthString};

fn short_auth_string() -> EmojiShortAuthString {
    let emoji = |symbol, description| Emoji { symbol, description };
    EmojiShortAuthString {
        indices: [0, 1, 2, 3, 4, 5, 63],
        emojis: [
            emoji("\u{1F436}", "Dog"),
            emoji("\u{1F431}", "Cat"),
            emoji("\u{1F981}", "Lion"),
            emoji("\u{1F40E}", "Horse"),
            emoji("\u{1F984}", "Unicorn"),
            emoji("\u{1F437}", "Pig"),
            emoji("\u{1F4CC}", "Pin"),
        ],
    }
}

#[test]
fn emojis_are_shown_in_order() {
    match SessionVerificationData::of_short_auth_string(Some(short_auth_string()), (1, 2, 3)) {
        SessionVerificationData::Emojis { emojis, indices } => {
            assert_eq!(indices, vec![0, 1, 2, 3, 4, 5, 63]);
            assert_eq!(emojis.len(), 7);
            assert_eq!(emojis[0].symbol(), "\u{1F436}");
            assert_eq!(emojis[0].description(), "Dog");
            assert_eq!(emojis[6].symbol(), "\u{1F4CC}");
            assert_eq!(emojis[6].description(), "Pin");
        }
        SessionVerificationData::Decimals { .. } => panic!("there are emojis to show"),
    }
}

#[test]
fn decimals_are_shown_without_emojis() {
    assert_eq!(
        SessionVerificationData::of_short_auth_string(None, (1000, 9191, 8191)),
        SessionVerificationData::Decimals { values: vec![1000, 9191, 8191] }
    );
}
