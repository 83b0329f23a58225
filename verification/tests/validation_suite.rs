//! Tests of the input validators.

use q_manager::validation::validate_account_name;
use q_manager::validation::validate_action_name;
use q_manager::validation::validate_api_hash;
use q_manager::validation::validate_api_id;
use q_manager::validation::validate_ban_patterns_json;
use q_manager::validation::validate_blacklist_json;
use q_manager::validation::validate_bot_user_id;
use q_manager::validation::validate_button_type;
use q_manager::validation::validate_delay;
use q_manager::validation::validate_group_id;
use q_manager::validation::validate_group_slot;
use q_manager::validation::validate_pattern;
use q_manager::validation::validate_phone_number;
use q_manager::validation::validate_priority;
use q_manager::validation::validate_target_pairs_json;
use q_manager::validation::validate_target_rule_json;

#[test]
fn validation_test_validate_delay() {
    assert!(validate_delay(2, 8).is_ok());
    assert!(validate_delay(0, 0).is_ok());
    assert!(validate_delay(5, 5).is_ok());
    assert!(validate_delay(8, 2).is_err()); // min > max
    assert!(validate_delay(-1, 5).is_err()); // negative
    assert!(validate_delay(0, 4000).is_err()); // exceeds max
}

#[test]
fn test_validate_pattern() {
    assert!(validate_pattern("hello", false).is_ok());
    assert!(validate_pattern("hello.*world", true).is_ok());
    assert!(validate_pattern("", false).is_err());
    assert!(validate_pattern("[invalid", true).is_err()); // bad regex
}

#[test]
fn test_validate_phone_number() {
    assert!(validate_phone_number("+1234567890").is_ok());
    assert!(validate_phone_number("(123) 456-7890").is_ok());
    assert!(validate_phone_number("123").is_err()); // too short
    assert!(validate_phone_number("abc123def").is_err()); // invalid chars
}

#[test]
fn test_validate_action_name() {
    assert!(validate_action_name("vote").is_ok());
    assert!(validate_action_name("kill_target").is_ok());
    assert!(validate_action_name("").is_err());
    assert!(validate_action_name("Vote").is_err()); // uppercase
    assert!(validate_action_name("vote target").is_err()); // space
}

#[test]
fn validation_test_validate_button_type() {
    assert!(validate_button_type("player_list").is_ok());
    assert!(validate_button_type("yes_no").is_ok());
    assert!(validate_button_type("fixed").is_ok());
    assert!(validate_button_type("invalid").is_err());
}

#[test]
fn test_validate_bot_user_id() {
    assert!(validate_bot_user_id(None).is_ok());
    assert!(validate_bot_user_id(Some(0)).is_ok());
    assert!(validate_bot_user_id(Some(123456789)).is_ok());
    assert!(validate_bot_user_id(Some(-1)).is_err());
}

#[test]
fn test_validate_group_id() {
    assert!(validate_group_id(None).is_ok());
    assert!(validate_group_id(Some(123456789)).is_ok());
    assert!(validate_group_id(Some(-1001234567890)).is_ok()); // supergroup
    assert!(validate_group_id(Some(0)).is_err());
}

#[test]
fn test_validate_group_slot() {
    assert!(validate_group_slot(1).is_ok());
    assert!(validate_group_slot(2).is_ok());
    assert!(validate_group_slot(0).is_err());
    assert!(validate_group_slot(3).is_err());
}

#[test]
fn test_validate_blacklist_json() {
    assert!(validate_blacklist_json("").is_ok());
    assert!(validate_blacklist_json(r#"["player1", "player2"]"#).is_ok());
    assert!(validate_blacklist_json(r#"[1, 2, 3]"#).is_err()); // not strings
    assert!(validate_blacklist_json("not json").is_err());
}

#[test]
fn test_validate_target_pairs_json() {
    assert!(validate_target_pairs_json("").is_ok());
    assert!(validate_target_pairs_json(r#"[["Alice", "Bob"], ["Carol", "Dave"]]"#).is_ok());
    assert!(validate_target_pairs_json(r#"[["Alice"]]"#).is_err()); // not a pair
    assert!(validate_target_pairs_json(r#"[[1, 2]]"#).is_err()); // not strings
}

#[test]
fn test_validate_account_name_valid() {
    assert!(validate_account_name("ValidName").is_ok());
    assert!(validate_account_name("Account_123").is_ok());
    assert!(validate_account_name("Test-Account").is_ok());
}

#[test]
fn test_validate_account_name_empty() {
    let result = validate_account_name("");
    assert!(result.is_err());
}

#[test]
fn test_validate_account_name_too_long() {
    let long_name = "a".repeat(101);
    let result = validate_account_name(&long_name);
    assert!(result.is_err());
}

#[test]
fn test_validate_phone_number_valid() {
    assert!(validate_phone_number("+1234567890").is_ok());
    assert!(validate_phone_number("+441234567890").is_ok());
    assert!(validate_phone_number("1234567890").is_ok());
}

#[test]
fn test_validate_phone_number_invalid() {
    assert!(validate_phone_number("+123").is_err()); // Too short
    assert!(validate_phone_number("+abc").is_err()); // Invalid characters
}

#[test]
fn test_validate_api_id_valid() {
    assert!(validate_api_id(12345).is_ok());
    assert!(validate_api_id(999999).is_ok());
}

#[test]
fn test_validate_api_id_invalid() {
    assert!(validate_api_id(0).is_err());
    assert!(validate_api_id(-1).is_err());
}

#[test]
fn test_validate_api_hash_valid() {
    assert!(validate_api_hash("0123456789abcdef0123456789abcdef").is_ok());
    assert!(validate_api_hash(&"a".repeat(32)).is_ok());
}

#[test]
fn test_validate_api_hash_invalid() {
    assert!(validate_api_hash("").is_err());
    assert!(validate_api_hash("short").is_err());
    assert!(validate_api_hash("has spaces").is_err());
}

#[test]
fn test_validate_pattern_valid() {
    assert!(validate_pattern("Join the game", false).is_ok());
    assert!(validate_pattern(r"game.*started", true).is_ok());
}

#[test]
fn test_validate_pattern_empty() {
    let result = validate_pattern("", false);
    assert!(result.is_err());
}

#[test]
fn test_validate_pattern_invalid_regex() {
    let result = validate_pattern("[invalid(regex", true);
    assert!(result.is_err());
}

#[test]
fn test_sanitization() {
    let name = "Valid_Name-123";
    assert!(validate_account_name(name).is_ok());

    let phone = "+1234567890";
    assert!(validate_phone_number(phone).is_ok());
}

#[test]
fn validation_tests_test_validate_delay() {
    assert!(validate_delay(2, 5).is_ok());
    assert!(validate_delay(0, 10).is_ok());
}

#[test]
fn test_validate_delay_invalid() {
    assert!(validate_delay(-1, 5).is_err()); // Negative min
    assert!(validate_delay(10, 5).is_err()); // Min > Max
}

#[test]
fn validation_tests_test_validate_button_type() {
    assert!(validate_button_type("player_list").is_ok());
    assert!(validate_button_type("yes_no").is_ok());
    assert!(validate_button_type("fixed").is_ok());
}

#[test]
fn test_validate_button_type_invalid() {
    assert!(validate_button_type("invalid_type").is_err());
}

#[test]
fn test_validate_priority_bounds() {
    assert!(validate_priority(0).is_ok());
    assert!(validate_priority(10000).is_ok());
    assert!(validate_priority(-10000).is_ok());
    assert!(validate_priority(10001).is_err());
    assert!(validate_priority(-10001).is_err());
}

#[test]
fn test_validate_target_rule_json_shapes() {
    assert!(validate_target_rule_json("").is_ok());
    assert!(validate_target_rule_json(r#"{"targets": ["Alice", "Bob"]}"#).is_ok());
    assert!(validate_target_rule_json(r#"{"type": "player_list", "random_fallback": true}"#).is_ok());
    assert!(validate_target_rule_json(r#"{"type": "bogus"}"#).is_err());
    assert!(validate_target_rule_json(r#"{"random_fallback": "yes"}"#).is_err());
    assert!(validate_target_rule_json(r#"{"targets": ["", "Bob"]}"#).is_err());
    assert!(validate_target_rule_json(r#"{"targets": "Alice"}"#).is_err());
    assert!(validate_target_rule_json(r#"["Alice"]"#).is_err());
    assert!(validate_target_rule_json("not json").is_err());
}

#[test]
fn test_validate_ban_patterns_json_shapes() {
    assert!(validate_ban_patterns_json("").is_ok());
    assert!(validate_ban_patterns_json(r#"["warned"]"#).is_ok());
    assert!(validate_ban_patterns_json(r#"[{"pattern": "warned", "is_regex": false}]"#).is_ok());
    assert!(validate_ban_patterns_json(r#"[{"pattern": "wa.*ed", "is_regex": true}]"#).is_ok());
    assert!(validate_ban_patterns_json(r#"[{"pattern": "[bad", "is_regex": true}]"#).is_err());
    assert!(validate_ban_patterns_json(r#"[{"pattern": ""}]"#).is_err());
    assert!(validate_ban_patterns_json(r#"[{"is_regex": true}]"#).is_err());
    assert!(validate_ban_patterns_json(r#"[42]"#).is_err());
    assert!(validate_ban_patterns_json(r#"{"pattern": "x"}"#).is_err());
}
