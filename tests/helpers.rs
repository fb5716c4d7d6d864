use game_admin::connection::ConnectionManager;
use game_admin::clock::{day_start, unix_seconds};
use game_admin::random::{code_char, digit_char, random_digits};
use game_admin::gate::{contains_text, socket_io_validation};
use game_admin::messages::get_localized_success_messages;
use game_admin::text::{all_digits, contains_char, decimal_text, same_text};

#[test]
fn text_helpers() {
    assert!(all_digits("0123456789"));
    assert!(all_digits(""));
    assert!(!all_digits("12a"));
    assert!(contains_char("2024-01-15T10:30:00Z", 'T'));
    assert!(!contains_char("abc", 'Z'));
    assert!(same_text("héllo", "héllo"));
    assert!(!same_text("a", "b"));
    assert_eq!(decimal_text(0), "0");
    assert_eq!(decimal_text(1234), "1234");
    assert!(contains_text("Upgrade, WebSocket", "Socket"));
    assert!(!contains_text("abc", "abcd"));
}

#[test]
fn time_and_digits() {
    assert_eq!(unix_seconds(1_999), 1);
    assert_eq!(unix_seconds(-1), -1);
    assert_eq!(unix_seconds(-1_000), -1);
    assert_eq!(unix_seconds(-1_001), -2);
    assert_eq!(day_start(86_400_000 + 5), 86_400_000);
    assert_eq!(day_start(-1), -86_400_000);
    assert_eq!(day_start(i64::MIN), i64::MIN);
    assert_eq!(digit_char(7), '7');
    assert_eq!(code_char(0), 'A');
    assert_eq!(code_char(35), '9');
    let d = random_digits(9);
    assert_eq!(d.len(), 9);
    assert_ne!(d.as_bytes()[0], b'0');
}

#[test]
fn gate_admits_socket_io_and_websocket() {
    assert!(socket_io_validation("/socket.io/?EIO=4", None));
    assert!(socket_io_validation("/ws", Some("WebSocket")));
    assert!(!socket_io_validation("/health", None));
    assert!(!socket_io_validation("/health", Some("h2c")));
}

#[test]
fn localized_messages() {
    assert_eq!(get_localized_success_messages("fr").setup_complete, "Configuration terminée avec succès ! ✅");
    assert_eq!(get_localized_success_messages("xx").welcome_message, "Welcome to Game Admin! 🎮");
    assert_eq!(get_localized_success_messages("ja").ready_to_play, "ゲームを始める準備ができました！🚀");
}

#[test]
fn problematic_sockets_are_never_dropped() {
    ConnectionManager::mark_problematic_socket("s1");
    assert!(!ConnectionManager::should_disconnect_socket("s1"));
    assert!(!ConnectionManager::should_disconnect_socket("s2"));
}

#[test]
fn white_space_matches_std() {
    for u in 0u32..0x3100 {
        if let Some(c) = char::from_u32(u) {
            assert_eq!(game_admin::text::is_whitespace(c), c.is_whitespace(), "{:x}", u);
        }
    }
    assert!(!game_admin::text::is_whitespace('\u{feff}'));
}
