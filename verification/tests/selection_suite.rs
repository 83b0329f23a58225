//! Tests of the button-selection strategies and the text primitives.

use q_manager::selection::EffectiveConfig;
use q_manager::selection::find_yes_no;
use q_manager::selection::select_target_button;
use q_manager::telethon::TelethonButton;
use q_manager::text::contains_substring;
use q_manager::text::i64_to_string;
use q_manager::text::str_eq;
use q_manager::text::u64_to_string;

fn button(text: &str) -> TelethonButton {
    TelethonButton {
        text: text.to_string(),
        kind: "callback".to_string(),
        data: Some(format!("data:{}", text)),
        url: None,
    }
}

fn config(button_type: &str, targets: Vec<&str>, fallback: bool) -> EffectiveConfig {
    EffectiveConfig {
        targets: targets.into_iter().map(|s| s.to_string()).collect(),
        blacklist: vec![],
        target_pairs: vec![],
        button_type: button_type.to_string(),
        random_fallback_enabled: fallback,
        is_two_step: false,
        delay_min: 0,
        delay_max: 0,
    }
}

#[test]
fn test_yes_no_strategy() {
    let buttons = vec![button("Maybe"), button("Yes, do it"), button("No way")];

    // A yes-target picks the first button of the yes class.
    let picked = find_yes_no(&buttons, "yes").unwrap();
    assert_eq!(picked.text, "Yes, do it");

    // A no-target picks the first button of the no class.
    let picked = find_yes_no(&buttons, "no").unwrap();
    assert_eq!(picked.text, "No way");

    // Check marks count as yes.
    let marks = vec![button("\u{2705} accept")];
    assert!(find_yes_no(&marks, "yes").is_some());

    // An unrecognised target falls back to containment.
    let picked = find_yes_no(&buttons, "Maybe").unwrap();
    assert_eq!(picked.text, "Maybe");
}

#[test]
fn test_yes_no_fallback_picks_first_button() {
    let buttons = vec![button("Left"), button("Right")];
    let cfg = config("yes_no", vec!["yes"], true);
    let (picked, _) = select_target_button(&cfg, &buttons).unwrap();
    assert_eq!(picked.text, "Left");

    let cfg = config("yes_no", vec!["yes"], false);
    assert!(select_target_button(&cfg, &buttons).is_none());
}

#[test]
fn test_fixed_strategy_exact_then_partial() {
    let buttons = vec![button("Vote Alice"), button("Alice")];
    let cfg = config("fixed", vec!["Alice"], false);
    let (picked, _) = select_target_button(&cfg, &buttons).unwrap();
    // Exact text wins over the earlier containing button.
    assert_eq!(picked.text, "Alice");

    let cfg = config("fixed", vec!["Vote"], false);
    let (picked, _) = select_target_button(&cfg, &buttons).unwrap();
    // No exact hit: the first containing button is the fallback.
    assert_eq!(picked.text, "Vote Alice");

    let cfg = config("fixed", vec!["Bob"], false);
    assert!(select_target_button(&cfg, &buttons).is_none());
}

#[test]
fn test_unknown_strategy_behaves_as_player_list() {
    let buttons = vec![button("Charlie"), button("Alice")];
    let cfg = config("mystery", vec!["Alice"], false);
    let (picked, _) = select_target_button(&cfg, &buttons).unwrap();
    assert_eq!(picked.text, "Alice");
}

#[test]
fn test_empty_buttons_select_nothing() {
    let cfg = config("player_list", vec!["Alice"], true);
    assert!(select_target_button(&cfg, &vec![]).is_none());
}

#[test]
fn test_contains_substring_basics() {
    assert!(contains_substring("hello world", "lo wo"));
    assert!(contains_substring("hello", ""));
    assert!(contains_substring("hello", "hello"));
    assert!(!contains_substring("hello", "hello!"));
    assert!(!contains_substring("", "x"));
    assert!(contains_substring("\u{628}\u{644}\u{647} yes", "\u{644}\u{647}"));
}

#[test]
fn test_str_eq_basics() {
    assert!(str_eq("", ""));
    assert!(str_eq("abc", "abc"));
    assert!(!str_eq("abc", "abd"));
    assert!(!str_eq("abc", "abcd"));
}

#[test]
fn test_decimal_rendering() {
    assert_eq!(u64_to_string(0), "0");
    assert_eq!(u64_to_string(10), "10");
    assert_eq!(u64_to_string(u64::MAX), u64::MAX.to_string());
    assert_eq!(i64_to_string(0), "0");
    assert_eq!(i64_to_string(-1), "-1");
    assert_eq!(i64_to_string(42), "42");
    assert_eq!(i64_to_string(i64::MIN), i64::MIN.to_string());
    assert_eq!(i64_to_string(i64::MAX), i64::MAX.to_string());
}
