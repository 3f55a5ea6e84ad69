use paper_plane::chat::{ChatKind, MemberStatus};
use paper_plane::markup::{FormattedText, TextEntity, TextEntityKind};
use paper_plane::message::{
    auth_code_type_name, bubble_is_outgoing, bubble_sender, indicators_move,
    is_opposite_text_direction, label_text, message_info_label, message_text_markup,
    reply_count_label, sender_color_class, sender_color_index, sending_state_icon,
    sponsor_color_index, venue_icon_name, AuthenticationCodeType, BubbleMessage, BubbleSender,
    Direction, IndicatorsMove, SendingStateIcon, SENDER_COLOR_COUNT,
};
use paper_plane::sidebar::SendingState;

#[test]
fn sender_colors() {
    assert_eq!(sender_color_index(Some(15), "x"), 1);
    assert_eq!(sender_color_index(Some(-1), "x"), (u64::MAX % 7) as usize);
    assert!(sender_color_index(None, "Alice") < SENDER_COLOR_COUNT);
    assert_eq!(sender_color_index(None, "Alice"), sender_color_index(None, "Alice"));
    assert!(sponsor_color_index("Sponsor") < SENDER_COLOR_COUNT);
    assert_eq!(sender_color_class(0), "sender-text-red");
    assert_eq!(sender_color_class(6), "sender-text-pink");
}

fn message(is_outgoing: bool, is_own_chat: bool, chat: ChatKind, sender_is_chat: bool) -> BubbleMessage {
    BubbleMessage { is_outgoing, is_own_chat, chat, sender_id: 42, sender_is_chat, forward_origin_id: Some(7) }
}

#[test]
fn bubble_sender_lines() {
    let group = ChatKind::BasicGroup { status: MemberStatus::Member };
    let private = ChatKind::Private { user_deleted: false };
    let channel = ChatKind::Supergroup { is_channel: true, status: MemberStatus::Member };
    assert_eq!(bubble_sender(message(false, false, group, false), true), BubbleSender::Hidden);
    assert_eq!(bubble_sender(message(false, true, private, false), false), BubbleSender::Shown(Some(7)));
    assert_eq!(bubble_sender(message(true, true, private, false), false), BubbleSender::Hidden);
    assert_eq!(bubble_sender(message(true, false, group, true), false), BubbleSender::Shown(Some(42)));
    assert_eq!(bubble_sender(message(true, false, group, false), false), BubbleSender::Hidden);
    assert_eq!(bubble_sender(message(false, false, group, false), false), BubbleSender::Shown(Some(42)));
    assert_eq!(bubble_sender(message(false, false, channel, true), false), BubbleSender::Shown(Some(42)));
    assert_eq!(bubble_sender(message(false, false, private, false), false), BubbleSender::Hidden);
    assert!(bubble_is_outgoing(true, private));
    assert!(!bubble_is_outgoing(true, channel));
    assert!(!bubble_is_outgoing(false, group));
}

#[test]
fn indicators() {
    assert_eq!(sending_state_icon(false, None, false, 1, 1), SendingStateIcon::Hidden);
    assert_eq!(sending_state_icon(true, Some(SendingState::Failed), false, 1, 1), SendingStateIcon::Failed);
    assert_eq!(sending_state_icon(true, Some(SendingState::Pending), false, 1, 1), SendingStateIcon::Pending);
    assert_eq!(sending_state_icon(true, None, true, 9, 1), SendingStateIcon::Read);
    assert_eq!(sending_state_icon(true, None, false, 3, 5), SendingStateIcon::Read);
    assert_eq!(sending_state_icon(true, None, false, 6, 5), SendingStateIcon::Unread);
    assert_eq!(SendingStateIcon::Unread.icon_name(), Some("message-unread-left-symbolic"));
    assert_eq!(reply_count_label(false, 12), Some("12".to_string()));
    assert_eq!(reply_count_label(true, 12), None);
    assert_eq!(reply_count_label(false, 0), None);
    assert_eq!(message_info_label(true, false, "edited", "9:41 AM"), "edited 9:41 AM");
    assert_eq!(message_info_label(true, true, "edited", "9:41 AM"), "9:41 AM");
    assert_eq!(message_info_label(false, false, "edited", "9:41 AM"), "9:41 AM");
}

#[test]
fn labels() {
    assert_eq!(label_text("hi", true, false), "hi\u{fffc}");
    assert_eq!(label_text("hi", true, true), "hi");
    assert_eq!(label_text("hi", false, false), "hi");
    assert!(is_opposite_text_direction(Direction::RightToLeft, Direction::LeftToRight));
    assert!(is_opposite_text_direction(Direction::LeftToRight, Direction::RightToLeft));
    assert!(!is_opposite_text_direction(Direction::Neutral, Direction::RightToLeft));
    assert_eq!(indicators_move(true, true), IndicatorsMove::ToOverlay);
    assert_eq!(indicators_move(false, false), IndicatorsMove::ToLabel);
    assert_eq!(indicators_move(true, false), IndicatorsMove::Stay);
}

#[test]
fn venues_codes_and_texts() {
    assert_eq!(venue_icon_name("food/default"), Some("emoji-food-symbolic"));
    assert_eq!(venue_icon_name("parks/default"), None);
    assert_eq!(auth_code_type_name(AuthenticationCodeType::FirebaseIos), "SMS");
    assert_eq!(auth_code_type_name(AuthenticationCodeType::TelegramMessage), "Telegram");
    assert_eq!(auth_code_type_name(AuthenticationCodeType::MissedCall), "Missed Call");
    let text = FormattedText {
        text: "a*b".to_string(),
        entities: vec![TextEntity { offset: 0, length: 1, kind: TextEntityKind::Bold }],
    };
    assert_eq!(message_text_markup(Some(&text), "unused"), "<b>a</b>*b");
    assert_eq!(
        message_text_markup(None, "This message is unsupported"),
        "<i>This message is unsupported</i>"
    );
}

#[test]
fn label_colors_follow_the_hash() {
    assert_eq!(sender_color_index(None, "Alice"), sponsor_color_index("Alice"));
    assert_eq!(sponsor_color_index("Sponsor"), sponsor_color_index("Sponsor"));
}
