use desktop_pet::dialogue::get_deterministic_dialogue;
use desktop_pet::text::{chars_of, contains, is_whitespace, parse_u64, parse_u8, split_whitespace, trimmed};
use desktop_pet::emit::{shortcut_event, ShortcutEvent};
use desktop_pet::types::{PetState, TelemetryEvent};

#[test]
fn test_deterministic_dialogue() {
    assert_eq!(
        get_deterministic_dialogue(PetState::Distressed, "HighCPU"),
        "Fans are screaming! What are we compiling?"
    );
    assert_eq!(
        get_deterministic_dialogue(PetState::Celebrating, "DevCommit"),
        "Commit pushed! Ship it to production!"
    );
    assert_eq!(
        get_deterministic_dialogue(PetState::Sleeping, "anything"),
        "Zzz... Don't wake me up..."
    );
}

#[test]
fn dialogue_for_every_state() {
    assert_eq!(get_deterministic_dialogue(PetState::Working, "NeoVim session"), "Coding hard! Remember to save often.");
    assert_eq!(get_deterministic_dialogue(PetState::Working, "browser"), "Focus mode activated!");
    assert_eq!(get_deterministic_dialogue(PetState::Distressed, "disk"), "Whoa, system pressure is rising!");
    assert_eq!(get_deterministic_dialogue(PetState::Celebrating, "release"), "Hooray! Great job!");
    assert_eq!(get_deterministic_dialogue(PetState::Walking, "cpu"), "Just taking a little stroll around your desktop.");
    assert_eq!(get_deterministic_dialogue(PetState::Idle, "commit"), "Meow! Standing by.");
}

#[test]
fn whitespace_agrees_with_std() {
    for c in (0u32..=0x10FFFF).filter_map(char::from_u32) {
        assert_eq!(is_whitespace(c), c.is_whitespace(), "{:?}", c);
    }
}

#[test]
fn split_and_trim_agree_with_std() {
    let samples = ["", "  a  b\tc\n", "\u{3000}x\u{00a0}y ", "abc", "   ", " \u{2028}z\u{85}"];
    for s in samples {
        let chars = chars_of(s);
        let toks: Vec<String> = split_whitespace(&chars).iter().map(|t| t.iter().collect()).collect();
        let expected: Vec<String> = s.split_whitespace().map(|t| t.to_string()).collect();
        assert_eq!(toks, expected);
        let t: String = trimmed(&chars).iter().collect();
        assert_eq!(t, s.trim());
    }
}

#[test]
fn numbers_agree_with_std() {
    let samples = [
        "", "+", "-", "-0", "0", "+7", "++7", "007", "255", "256", "18446744073709551615",
        "18446744073709551616", "99999999999999999999999", "1a", " 1", "\u{0661}",
    ];
    for s in samples {
        let chars = chars_of(s);
        assert_eq!(parse_u64(&chars), s.parse::<u64>().ok(), "{:?}", s);
        assert_eq!(parse_u8(&chars), s.parse::<u8>().ok(), "{:?}", s);
    }
}

#[test]
fn contains_agrees_with_std() {
    let pairs = [("hello", "ell"), ("hello", ""), ("", ""), ("", "a"), ("abc", "abcd"), ("aaab", "aab"), ("x", "y")];
    for (h, n) in pairs {
        assert_eq!(contains(&chars_of(h), &chars_of(n)), h.contains(n));
    }
}

#[test]
fn emit_shortcuts_stand_for_their_events() {
    assert_eq!(shortcut_event("CPU", None), ShortcutEvent::CpuPercent("50.0".to_string()));
    assert_eq!(shortcut_event("cpu", Some("91.5".to_string())), ShortcutEvent::CpuPercent("91.5".to_string()));
    assert_eq!(shortcut_event("Idle", None), ShortcutEvent::Ready(TelemetryEvent::IdleTime(10)));
    assert_eq!(shortcut_event("idle", Some("+400".to_string())), ShortcutEvent::Ready(TelemetryEvent::IdleTime(400)));
    assert_eq!(shortcut_event("idle", Some("4294967296".to_string())), ShortcutEvent::BadIdleValue("4294967296".to_string()));
    assert_eq!(shortcut_event("battery", Some("42".to_string())), ShortcutEvent::Ready(TelemetryEvent::BatteryLevel(Some(42))));
    assert_eq!(shortcut_event("battery", Some("256".to_string())), ShortcutEvent::Ready(TelemetryEvent::BatteryLevel(None)));
    assert_eq!(shortcut_event("battery", None), ShortcutEvent::Ready(TelemetryEvent::BatteryLevel(None)));
    assert_eq!(shortcut_event("click", None), ShortcutEvent::Ready(TelemetryEvent::UserClick { x: 32, y: 32 }));
    assert_eq!(
        shortcut_event("COMMIT", None),
        ShortcutEvent::Ready(TelemetryEvent::DevCommit { repo: "desktop-pet".to_string(), hash: "abc1234".to_string() })
    );
    assert_eq!(
        shortcut_event("window", Some("lib.rs".to_string())),
        ShortcutEvent::Ready(TelemetryEvent::ActiveWindow { class: "Neovim".to_string(), title: "lib.rs".to_string() })
    );
    assert_eq!(shortcut_event("dance", None), ShortcutEvent::UnknownKind);
}
