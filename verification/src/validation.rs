//! Input validation: every value the configuration layer accepts is checked
//! here before it is stored.

use vstd::prelude::*;
use vstd::string::StrSliceExecFns;
use vstd::string::StringExecFns;
use crate::constants::MAX_ACCOUNT_NAME_LENGTH;
use crate::constants::MAX_ACTION_NAME_LENGTH;
use crate::constants::MAX_BLACKLIST_SIZE;
use crate::constants::MAX_DELAY_SECONDS;
use crate::constants::MAX_DISPLAY_NAME_LENGTH;
use crate::constants::MAX_PATTERN_LENGTH;
use crate::constants::MAX_PHONE_LENGTH;
use crate::constants::MAX_PRIORITY;
use crate::constants::MAX_TARGET_LIST_SIZE;
use crate::constants::MAX_TARGET_PAIRS;
use crate::constants::MIN_DELAY_SECONDS;
use crate::constants::MIN_PRIORITY;
use crate::json::JsonNode;
use crate::json::json_of;
use crate::json::parse_json;
use crate::json::spec_obj_get;
use crate::text::regex_ok;
use crate::text::spec_contains;
use crate::text::regex_valid;
use crate::text::str_eq;
use crate::text::u64_to_string;

verus! {

/// A rejected input: which field failed and why.
#[derive(Clone, Debug)]
pub struct ValidationError {
    pub field: String,
    pub message: String,
}

impl ValidationError {
    fn of(field: &str, message: &str) -> (r: ValidationError)
        ensures
            r.field@ == field@,
            r.message@ == message@,
    {
        ValidationError { field: String::from_str(field), message: String::from_str(message) }
    }
}

/// What trimming a string leaves: see the `trim` wrapper below.
pub uninterp spec fn trim_of(s: Seq<char>) -> Seq<char>;

/// Relies on str::trim: removes leading and trailing whitespace, a function
/// of the characters alone; the result is a contiguous subrange of the
/// input, never longer than it.
#[verifier::external_body]
pub fn trim(s: &str) -> (r: &str)
    ensures
        r@ == trim_of(s@),
        r@.len() <= s@.len(),
        spec_contains(s@, r@),
{
    s.trim()
}

/// A pattern is accepted when it is non-empty, at most
/// `MAX_PATTERN_LENGTH` characters, and, for a regex, compiles.
pub open spec fn spec_valid_pattern(p: Seq<char>, is_regex: bool) -> bool {
    &&& p.len() > 0
    &&& p.len() <= MAX_PATTERN_LENGTH
    &&& (is_regex ==> regex_valid(p))
}

/// Validate a regular-expression pattern.
pub fn validate_regex_pattern(pattern: &str) -> (r: Result<(), ValidationError>)
    ensures
        r is Ok <==> spec_valid_pattern(pattern@, true),
{
    validate_pattern(pattern, true)
}

/// Validate a pattern, regex or substring.
pub fn validate_pattern(pattern: &str, is_regex: bool) -> (r: Result<(), ValidationError>)
    ensures
        r is Ok <==> spec_valid_pattern(pattern@, is_regex),
{
    let n = pattern.unicode_len();
    if n == 0 {
        return Err(ValidationError::of("pattern", "Pattern cannot be empty"));
    }
    if n > MAX_PATTERN_LENGTH {
        return Err(ValidationError::of(
            "pattern",
            "Pattern exceeds maximum length of 1000 characters",
        ));
    }
    if is_regex && !regex_ok(pattern) {
        return Err(ValidationError::of("pattern", "Invalid regex syntax"));
    }
    Ok(())
}

/// A delay range is accepted when both bounds lie in
/// `[MIN_DELAY_SECONDS, MAX_DELAY_SECONDS]` and the minimum does not exceed
/// the maximum.
pub open spec fn spec_valid_delay(min_seconds: int, max_seconds: int) -> bool {
    &&& MIN_DELAY_SECONDS <= min_seconds <= MAX_DELAY_SECONDS
    &&& MIN_DELAY_SECONDS <= max_seconds <= MAX_DELAY_SECONDS
    &&& min_seconds <= max_seconds
}

/// Validate a delay range in seconds.
pub fn validate_delay(min_seconds: i32, max_seconds: i32) -> (r: Result<(), ValidationError>)
    ensures
        r is Ok <==> spec_valid_delay(min_seconds as int, max_seconds as int),
        (match r {
            Ok(_) => true,
            Err(e) => e.field@ == (if min_seconds < MIN_DELAY_SECONDS {
                "min_seconds"@
            } else if max_seconds < MIN_DELAY_SECONDS {
                "max_seconds"@
            } else if min_seconds > MAX_DELAY_SECONDS {
                "min_seconds"@
            } else if max_seconds > MAX_DELAY_SECONDS {
                "max_seconds"@
            } else {
                "delay"@
            }),
        }),
{
    if min_seconds < MIN_DELAY_SECONDS {
        return Err(ValidationError::of(
            "min_seconds",
            "Minimum delay cannot be less than 0 seconds",
        ));
    }
    if max_seconds < MIN_DELAY_SECONDS {
        return Err(ValidationError::of(
            "max_seconds",
            "Maximum delay cannot be less than 0 seconds",
        ));
    }
    if min_seconds > MAX_DELAY_SECONDS {
        return Err(ValidationError::of(
            "min_seconds",
            "Minimum delay cannot exceed 3600 seconds",
        ));
    }
    if max_seconds > MAX_DELAY_SECONDS {
        return Err(ValidationError::of(
            "max_seconds",
            "Maximum delay cannot exceed 3600 seconds",
        ));
    }
    if min_seconds > max_seconds {
        return Err(ValidationError::of(
            "delay",
            "Minimum delay cannot be greater than maximum delay",
        ));
    }
    Ok(())
}

/// Validate a pattern priority.
pub fn validate_priority(priority: i32) -> (r: Result<(), ValidationError>)
    ensures
        r is Ok <==> MIN_PRIORITY <= priority <= MAX_PRIORITY,
{
    if priority < MIN_PRIORITY {
        return Err(ValidationError::of("priority", "Priority cannot be less than -10000"));
    }
    if priority > MAX_PRIORITY {
        return Err(ValidationError::of("priority", "Priority cannot exceed 10000"));
    }
    Ok(())
}

/// A name is accepted when its trimmed form is non-empty and at most
/// `max_chars` characters long.
pub open spec fn spec_valid_trimmed_name(name: Seq<char>, max_chars: int) -> bool {
    &&& trim_of(name).len() > 0
    &&& trim_of(name).len() <= max_chars
}

/// Validate an account name.
pub fn validate_account_name(name: &str) -> (r: Result<(), ValidationError>)
    ensures
        r is Ok <==> spec_valid_trimmed_name(name@, MAX_ACCOUNT_NAME_LENGTH as int),
{
    let trimmed = trim(name);
    let n = trimmed.unicode_len();
    if n == 0 {
        return Err(ValidationError::of("account_name", "Account name cannot be empty"));
    }
    if n > MAX_ACCOUNT_NAME_LENGTH {
        return Err(ValidationError::of(
            "account_name",
            "Account name exceeds maximum length of 100 characters",
        ));
    }
    Ok(())
}

/// The character is one that an action name may hold: a lowercase ASCII
/// letter, an ASCII digit, or an underscore.
pub open spec fn spec_action_name_char(c: char) -> bool {
    ('a' <= c && c <= 'z') || ('0' <= c && c <= '9') || c == '_'
}

/// An action name is accepted when its trimmed form is non-empty, at most
/// `MAX_ACTION_NAME_LENGTH` characters, and made of lowercase letters,
/// digits and underscores.
pub open spec fn spec_valid_action_name(name: Seq<char>) -> bool {
    &&& trim_of(name).len() > 0
    &&& trim_of(name).len() <= MAX_ACTION_NAME_LENGTH
    &&& forall|i: int| 0 <= i < trim_of(name).len() ==> spec_action_name_char(trim_of(name)[i])
}

/// Validate an action's internal name.
#[verifier::loop_isolation(false)]
pub fn validate_action_name(name: &str) -> (r: Result<(), ValidationError>)
    ensures
        r is Ok <==> spec_valid_action_name(name@),
{
    let trimmed = trim(name);
    let n = trimmed.unicode_len();
    if n == 0 {
        return Err(ValidationError::of("name", "Action name cannot be empty"));
    }
    if n > MAX_ACTION_NAME_LENGTH {
        return Err(ValidationError::of(
            "name",
            "Action name exceeds maximum length of 100 characters",
        ));
    }
    let mut i: usize = 0;
    while i < n
        invariant
            n == trimmed@.len(),
            i <= n,
            forall|k: int| 0 <= k < i ==> spec_action_name_char(trimmed@[k]),
        decreases n - i,
    {
        let c = trimmed.get_char(i);
        if !(('a' <= c && c <= 'z') || ('0' <= c && c <= '9') || c == '_') {
            return Err(ValidationError::of(
                "name",
                "Action name must contain only lowercase letters, numbers, and underscores",
            ));
        }
        i = i + 1;
    }
    Ok(())
}

/// Validate a display name.
pub fn validate_display_name(name: &str) -> (r: Result<(), ValidationError>)
    ensures
        r is Ok <==> spec_valid_trimmed_name(name@, MAX_DISPLAY_NAME_LENGTH as int),
{
    let trimmed = trim(name);
    let n = trimmed.unicode_len();
    if n == 0 {
        return Err(ValidationError::of("display_name", "Display name cannot be empty"));
    }
    if n > MAX_DISPLAY_NAME_LENGTH {
        return Err(ValidationError::of(
            "display_name",
            "Display name exceeds maximum length of 200 characters",
        ));
    }
    Ok(())
}

/// The character is one that a phone number may hold.
pub open spec fn spec_phone_char(c: char) -> bool {
    ('0' <= c && c <= '9') || c == '+' || c == '-' || c == ' ' || c == '(' || c == ')'
}

/// The character is an ASCII decimal digit.
pub open spec fn spec_digit(c: char) -> bool {
    '0' <= c && c <= '9'
}

/// The number of decimal digits in a character sequence.
pub open spec fn spec_digit_count(s: Seq<char>) -> int
    decreases s.len(),
{
    if s.len() == 0 {
        0
    } else {
        spec_digit_count(s.drop_last()) + if spec_digit(s.last()) {
            1int
        } else {
            0int
        }
    }
}

/// A phone number is accepted when, after trimming, it is non-empty, at most
/// `MAX_PHONE_LENGTH` characters, holds only digits and phone punctuation,
/// and has at least seven digits.
pub open spec fn spec_valid_phone(phone: Seq<char>) -> bool {
    &&& trim_of(phone).len() > 0
    &&& trim_of(phone).len() <= MAX_PHONE_LENGTH
    &&& forall|i: int| 0 <= i < trim_of(phone).len() ==> spec_phone_char(trim_of(phone)[i])
    &&& spec_digit_count(trim_of(phone)) >= 7
}

/// Validate a phone number.
#[verifier::loop_isolation(false)]
pub fn validate_phone_number(phone: &str) -> (r: Result<(), ValidationError>)
    ensures
        r is Ok <==> spec_valid_phone(phone@),
{
    let trimmed = trim(phone);
    let n = trimmed.unicode_len();
    if n == 0 {
        return Err(ValidationError::of("phone", "Phone number cannot be empty"));
    }
    if n > MAX_PHONE_LENGTH {
        return Err(ValidationError::of(
            "phone",
            "Phone number exceeds maximum length of 20 characters",
        ));
    }
    let mut digits: usize = 0;
    let mut i: usize = 0;
    proof {
        assert(trimmed@.take(0) =~= Seq::<char>::empty());
    }
    while i < n
        invariant
            n == trimmed@.len(),
            i <= n,
            digits <= i,
            forall|k: int| 0 <= k < i ==> spec_phone_char(trimmed@[k]),
            digits == spec_digit_count(trimmed@.take(i as int)),
        decreases n - i,
    {
        let c = trimmed.get_char(i);
        if !(('0' <= c && c <= '9') || c == '+' || c == '-' || c == ' ' || c == '(' || c == ')') {
            return Err(ValidationError::of("phone", "Phone number contains invalid characters"));
        }
        proof {
            let t1 = trimmed@.take(i + 1);
            assert(t1.drop_last() =~= trimmed@.take(i as int));
            assert(t1.last() == trimmed@[i as int]);
        }
        if '0' <= c && c <= '9' {
            digits = digits + 1;
        }
        i = i + 1;
    }
    proof {
        assert(trimmed@.take(n as int) =~= trimmed@);
    }
    if digits < 7 {
        return Err(ValidationError::of("phone", "Phone number must contain at least 7 digits"));
    }
    Ok(())
}

/// Validate the API id: it must be positive.
pub fn validate_api_id(api_id: i64) -> (r: Result<(), ValidationError>)
    ensures
        r is Ok <==> api_id > 0,
{
    if api_id <= 0 {
        return Err(ValidationError::of("api_id", "API ID must be a positive number"));
    }
    Ok(())
}

/// The character is an ASCII hexadecimal digit.
pub open spec fn spec_hex_char(c: char) -> bool {
    ('0' <= c && c <= '9') || ('a' <= c && c <= 'f') || ('A' <= c && c <= 'F')
}

/// An API hash is accepted when its trimmed form is exactly 32 hexadecimal
/// characters.
pub open spec fn spec_valid_api_hash(hash: Seq<char>) -> bool {
    &&& trim_of(hash).len() == 32
    &&& forall|i: int| 0 <= i < trim_of(hash).len() ==> spec_hex_char(trim_of(hash)[i])
}

/// Validate the API hash.
#[verifier::loop_isolation(false)]
pub fn validate_api_hash(api_hash: &str) -> (r: Result<(), ValidationError>)
    ensures
        r is Ok <==> spec_valid_api_hash(api_hash@),
{
    let trimmed = trim(api_hash);
    let n = trimmed.unicode_len();
    if n == 0 {
        return Err(ValidationError::of("api_hash", "API Hash cannot be empty"));
    }
    if n != 32 {
        return Err(ValidationError::of("api_hash", "API Hash must be exactly 32 characters"));
    }
    let mut i: usize = 0;
    while i < n
        invariant
            n == trimmed@.len(),
            i <= n,
            forall|k: int| 0 <= k < i ==> spec_hex_char(trimmed@[k]),
        decreases n - i,
    {
        let c = trimmed.get_char(i);
        if !(('0' <= c && c <= '9') || ('a' <= c && c <= 'f') || ('A' <= c && c <= 'F')) {
            return Err(ValidationError::of(
                "api_hash",
                "API Hash must contain only hexadecimal characters",
            ));
        }
        i = i + 1;
    }
    Ok(())
}

/// Join rules are accepted when the attempt cap lies in `[1, 100]` and the
/// cooldown in `[0, 300]` seconds.
pub open spec fn spec_valid_join_rules(max_attempts: int, cooldown_seconds: int) -> bool {
    &&& 1 <= max_attempts <= 100
    &&& 0 <= cooldown_seconds <= 300
}

/// Validate join rules.
pub fn validate_join_rules(max_attempts: i32, cooldown_seconds: i32) -> (r: Result<
    (),
    ValidationError,
>)
    ensures
        r is Ok <==> spec_valid_join_rules(max_attempts as int, cooldown_seconds as int),
        (match r {
            Ok(_) => true,
            Err(e) => e.field@ == (if max_attempts < 1 || max_attempts > 100 {
                "max_attempts"@
            } else {
                "cooldown_seconds"@
            }),
        }),
{
    if max_attempts < 1 {
        return Err(ValidationError::of(
            "max_attempts",
            "Maximum join attempts must be at least 1",
        ));
    }
    if max_attempts > 100 {
        return Err(ValidationError::of(
            "max_attempts",
            "Maximum join attempts cannot exceed 100",
        ));
    }
    if cooldown_seconds < 0 {
        return Err(ValidationError::of("cooldown_seconds", "Cooldown cannot be negative"));
    }
    if cooldown_seconds > 300 {
        return Err(ValidationError::of(
            "cooldown_seconds",
            "Cooldown cannot exceed 300 seconds",
        ));
    }
    Ok(())
}

/// The accepted button types.
pub open spec fn spec_valid_button_type(t: Seq<char>) -> bool {
    t == "player_list"@ || t == "yes_no"@ || t == "fixed"@
}

/// Validate a button type string.
pub fn validate_button_type(button_type: &str) -> (r: Result<(), ValidationError>)
    ensures
        r is Ok <==> spec_valid_button_type(button_type@),
{
    if str_eq(button_type, "player_list") || str_eq(button_type, "yes_no")
        || str_eq(button_type, "fixed") {
        Ok(())
    } else {
        Err(ValidationError::of(
            "button_type",
            "Invalid button type. Must be one of: player_list, yes_no, fixed",
        ))
    }
}

/// Validate an optional bot user id: absent or zero means unset; a set id
/// must be positive.
pub fn validate_bot_user_id(user_id: Option<i64>) -> (r: Result<(), ValidationError>)
    ensures
        r is Ok <==> (match user_id {
            None => true,
            Some(id) => id >= 0,
        }),
{
    match user_id {
        None => Ok(()),
        Some(id) => {
            if id == 0 || id > 0 {
                Ok(())
            } else {
                Err(ValidationError::of("bot_user_id", "Bot User ID must be a positive number"))
            }
        },
    }
}

/// Validate an optional bot username, kept lenient because it is only shown.
pub fn validate_bot_username(username: Option<&str>) -> (r: Result<(), ValidationError>)
    ensures
        r is Ok <==> (match username {
            None => true,
            Some(s) => s@.len() <= 64,
        }),
{
    match username {
        None => Ok(()),
        Some(s) => {
            if s.unicode_len() > 64 {
                Err(ValidationError::of(
                    "bot_username",
                    "Bot username exceeds maximum length of 64 characters",
                ))
            } else {
                Ok(())
            }
        },
    }
}

/// Validate an optional group id: any non-zero id is accepted.
pub fn validate_group_id(group_id: Option<i64>) -> (r: Result<(), ValidationError>)
    ensures
        r is Ok <==> group_id != Some(0i64),
{
    match group_id {
        None => Ok(()),
        Some(id) => {
            if id == 0 {
                Err(ValidationError::of("group_id", "Group ID cannot be 0"))
            } else {
                Ok(())
            }
        },
    }
}

/// Validate a group slot index: only slots 1 and 2 exist.
pub fn validate_group_slot(slot: i32) -> (r: Result<(), ValidationError>)
    ensures
        r is Ok <==> 1 <= slot <= 2,
{
    if slot < 1 || slot > 2 {
        Err(ValidationError::of("group_slot", "Group slot must be 1 or 2"))
    } else {
        Ok(())
    }
}

/// The accepted target-rule `type` values.
pub open spec fn spec_valid_rule_type(t: Seq<char>) -> bool {
    ||| t == "player_list"@
    ||| t == "yes_no"@
    ||| t == "fixed"@
    ||| t == "names"@
    ||| t == "button_text"@
    ||| t == "random"@
}

/// The `type` member of a parsed rule is absent or a recognised string.
pub open spec fn spec_rule_type_ok(rule: JsonNode) -> bool {
    match rule.spec_get("type"@) {
        None => true,
        Some(JsonNode::Str(s)) => spec_valid_rule_type(s@),
        Some(_) => false,
    }
}

/// The named member of a parsed rule is absent or a boolean.
pub open spec fn spec_rule_bool_ok(rule: JsonNode, key: Seq<char>) -> bool {
    match rule.spec_get(key) {
        None => true,
        Some(v) => v is Bool,
    }
}

/// The `targets` member of a parsed rule is absent or an array of at most
/// `MAX_TARGET_LIST_SIZE` non-empty strings.
pub open spec fn spec_rule_targets_ok(rule: JsonNode) -> bool {
    match rule.spec_get("targets"@) {
        None => true,
        Some(JsonNode::Arr(items)) => {
            &&& items@.len() <= MAX_TARGET_LIST_SIZE
            &&& forall|i: int|
                0 <= i < items@.len() ==> (items@[i] is Str && trim_of(
                    items@[i]->Str_0@,
                ).len() > 0)
        },
        Some(_) => false,
    }
}

/// A target rule text is accepted when it is empty, or parses to a JSON
/// object whose `type`, fallback flags and `targets` members are well formed.
pub open spec fn spec_valid_target_rule(s: Seq<char>) -> bool {
    s.len() == 0 || (match json_of(s) {
        None => false,
        Some(rule) => {
            &&& rule is Obj
            &&& spec_rule_type_ok(rule)
            &&& spec_rule_bool_ok(rule, "random_fallback"@)
            &&& spec_rule_bool_ok(rule, "random_fallback_enabled"@)
            &&& spec_rule_targets_ok(rule)
        },
    })
}

/// Validate a target rule text.
#[verifier::loop_isolation(false)]
pub fn validate_target_rule_json(json: &str) -> (r: Result<(), ValidationError>)
    ensures
        r is Ok <==> spec_valid_target_rule(json@),
{
    if json.unicode_len() == 0 {
        return Ok(());
    }
    let parsed_opt = parse_json(json);
    let parsed = match parsed_opt {
        None => {
            return Err(ValidationError::of("rule_json", "Invalid JSON"));
        },
        Some(p) => p,
    };
    if !parsed.is_object() {
        return Err(ValidationError::of("rule_json", "Target rule must be a JSON object"));
    }
    match parsed.get("type") {
        None => (),
        Some(t) => {
            match t.as_str() {
                Some(s) => {
                    if !(str_eq(s.as_str(), "player_list") || str_eq(s.as_str(), "yes_no")
                        || str_eq(s.as_str(), "fixed") || str_eq(s.as_str(), "names") || str_eq(
                        s.as_str(),
                        "button_text",
                    ) || str_eq(s.as_str(), "random")) {
                        return Err(ValidationError::of(
                            "type",
                            "Target rule type must be one of: player_list, yes_no, fixed, names, button_text, random",
                        ));
                    }
                },
                None => {
                    return Err(ValidationError::of("type", "Target rule type must be a string"));
                },
            }
        },
    }
    match parsed.get("random_fallback") {
        None => (),
        Some(v) => {
            if !v.is_bool() {
                return Err(ValidationError::of(
                    "random_fallback",
                    "random_fallback must be a boolean",
                ));
            }
        },
    }
    match parsed.get("random_fallback_enabled") {
        None => (),
        Some(v) => {
            if !v.is_bool() {
                return Err(ValidationError::of(
                    "random_fallback_enabled",
                    "random_fallback_enabled must be a boolean",
                ));
            }
        },
    }
    match parsed.get("targets") {
        None => (),
        Some(t) => {
            match t.as_array() {
                Some(items) => {
                    let n = items.len();
                    if n > MAX_TARGET_LIST_SIZE {
                        return Err(ValidationError::of(
                            "targets",
                            "Target list exceeds maximum size of 100",
                        ));
                    }
                    let mut i: usize = 0;
                    while i < n
                        invariant
                            n == items@.len(),
                            i <= n,
                            forall|k: int|
                                0 <= k < i ==> (items@[k] is Str && trim_of(
                                    items@[k]->Str_0@,
                                ).len() > 0),
                        decreases n - i,
                    {
                        match items[i].as_str() {
                            Some(target) => {
                                if trim(target.as_str()).unicode_len() == 0 {
                                    let mut msg = String::from_str("Target at index ");
                                    msg.append(u64_to_string(i as u64).as_str());
                                    msg.append(" cannot be empty");
                                    return Err(ValidationError {
                                        field: String::from_str("targets"),
                                        message: msg,
                                    });
                                }
                            },
                            None => {
                                let mut msg = String::from_str("Target at index ");
                                msg.append(u64_to_string(i as u64).as_str());
                                msg.append(" must be a string");
                                return Err(ValidationError {
                                    field: String::from_str("targets"),
                                    message: msg,
                                });
                            },
                        }
                        i = i + 1;
                    }
                },
                None => {
                    return Err(ValidationError::of("targets", "Targets must be a JSON array"));
                },
            }
        },
    }
    Ok(())
}

/// A blacklist text is accepted when it is empty, or parses to a JSON array
/// of at most `MAX_BLACKLIST_SIZE` strings.
pub open spec fn spec_valid_blacklist(s: Seq<char>) -> bool {
    s.len() == 0 || (match json_of(s) {
        None => false,
        Some(JsonNode::Arr(items)) => {
            &&& items@.len() <= MAX_BLACKLIST_SIZE
            &&& forall|i: int| 0 <= i < items@.len() ==> items@[i] is Str
        },
        Some(_) => false,
    })
}

/// Validate a blacklist text.
#[verifier::loop_isolation(false)]
pub fn validate_blacklist_json(json: &str) -> (r: Result<(), ValidationError>)
    ensures
        r is Ok <==> spec_valid_blacklist(json@),
{
    if json.unicode_len() == 0 {
        return Ok(());
    }
    let parsed_opt = parse_json(json);
    let parsed = match parsed_opt {
        None => {
            return Err(ValidationError::of("blacklist_json", "Invalid JSON"));
        },
        Some(p) => p,
    };
    match parsed.as_array() {
        Some(items) => {
            let n = items.len();
            if n > MAX_BLACKLIST_SIZE {
                return Err(ValidationError::of(
                    "blacklist_json",
                    "Blacklist exceeds maximum size of 100",
                ));
            }
            let mut i: usize = 0;
            while i < n
                invariant
                    n == items@.len(),
                    i <= n,
                    forall|k: int| 0 <= k < i ==> items@[k] is Str,
                decreases n - i,
            {
                if !items[i].is_string() {
                    return Err(ValidationError::of(
                        "blacklist_json",
                        "Blacklist items must be strings",
                    ));
                }
                i = i + 1;
            }
            Ok(())
        },
        None => Err(ValidationError::of("blacklist_json", "Blacklist must be a JSON array")),
    }
}

/// One entry of a pair list: an array of exactly two strings.
pub open spec fn spec_valid_pair(v: JsonNode) -> bool {
    match v {
        JsonNode::Arr(pair) => pair@.len() == 2 && pair@[0] is Str && pair@[1] is Str,
        _ => false,
    }
}

/// A pair-list text is accepted when it is empty, or parses to a JSON array
/// of at most `MAX_TARGET_PAIRS` two-string pairs.
pub open spec fn spec_valid_target_pairs(s: Seq<char>) -> bool {
    s.len() == 0 || (match json_of(s) {
        None => false,
        Some(JsonNode::Arr(items)) => {
            &&& items@.len() <= MAX_TARGET_PAIRS
            &&& forall|i: int| 0 <= i < items@.len() ==> spec_valid_pair(#[trigger] items@[i])
        },
        Some(_) => false,
    })
}

/// Validate a target-pairs text.
#[verifier::loop_isolation(false)]
pub fn validate_target_pairs_json(json: &str) -> (r: Result<(), ValidationError>)
    ensures
        r is Ok <==> spec_valid_target_pairs(json@),
{
    if json.unicode_len() == 0 {
        return Ok(());
    }
    let parsed_opt = parse_json(json);
    let parsed = match parsed_opt {
        None => {
            return Err(ValidationError::of("pairs_json", "Invalid JSON"));
        },
        Some(p) => p,
    };
    match parsed.as_array() {
        Some(items) => {
            let n = items.len();
            if n > MAX_TARGET_PAIRS {
                return Err(ValidationError::of(
                    "pairs_json",
                    "Target pairs exceed maximum count of 50",
                ));
            }
            let mut i: usize = 0;
            while i < n
                invariant
                    n == items@.len(),
                    i <= n,
                    forall|k: int| 0 <= k < i ==> spec_valid_pair(#[trigger] items@[k]),
                decreases n - i,
            {
                match items[i].as_array() {
                    Some(pair) => {
                        if pair.len() != 2 {
                            let mut msg = String::from_str("Pair at index ");
                            msg.append(u64_to_string(i as u64).as_str());
                            msg.append(" must have exactly 2 elements");
                            return Err(ValidationError {
                                field: String::from_str("pairs_json"),
                                message: msg,
                            });
                        }
                        if !pair[0].is_string() || !pair[1].is_string() {
                            let mut msg = String::from_str("Pair elements at index ");
                            msg.append(u64_to_string(i as u64).as_str());
                            msg.append(" must be strings");
                            return Err(ValidationError {
                                field: String::from_str("pairs_json"),
                                message: msg,
                            });
                        }
                    },
                    None => {
                        let mut msg = String::from_str("Item at index ");
                        msg.append(u64_to_string(i as u64).as_str());
                        msg.append(" must be an array pair");
                        return Err(ValidationError {
                            field: String::from_str("pairs_json"),
                            message: msg,
                        });
                    },
                }
                i = i + 1;
            }
            Ok(())
        },
        None => Err(ValidationError::of("pairs_json", "Target pairs must be a JSON array")),
    }
}

/// One entry of a ban-pattern list: a non-empty string, or an object with a
/// non-empty `pattern` whose regex, when flagged, compiles.
pub open spec fn spec_valid_ban_entry(v: JsonNode) -> bool {
    match v {
        JsonNode::Str(s) => s@.len() > 0,
        JsonNode::Obj(_) => match v.spec_get("pattern"@) {
            Some(JsonNode::Str(p)) => {
                &&& p@.len() > 0
                &&& (match v.spec_get("is_regex"@) {
                    Some(JsonNode::Bool(true)) => regex_valid(p@),
                    _ => true,
                })
            },
            _ => false,
        },
        _ => false,
    }
}

/// A ban-pattern text is accepted when it is empty, or parses to a JSON
/// array of at most 50 well-formed entries.
pub open spec fn spec_valid_ban_patterns(s: Seq<char>) -> bool {
    s.len() == 0 || (match json_of(s) {
        None => false,
        Some(JsonNode::Arr(items)) => {
            &&& items@.len() <= 50
            &&& forall|i: int| 0 <= i < items@.len() ==> spec_valid_ban_entry(#[trigger] items@[i])
        },
        Some(_) => false,
    })
}

/// Validate a ban-warning-patterns text.
#[verifier::loop_isolation(false)]
pub fn validate_ban_patterns_json(json: &str) -> (r: Result<(), ValidationError>)
    ensures
        r is Ok <==> spec_valid_ban_patterns(json@),
{
    if json.unicode_len() == 0 {
        return Ok(());
    }
    let parsed_opt = parse_json(json);
    let parsed = match parsed_opt {
        None => {
            return Err(ValidationError::of("ban_patterns_json", "Invalid JSON"));
        },
        Some(p) => p,
    };
    match parsed.as_array() {
        Some(items) => {
            let n = items.len();
            if n > 50 {
                return Err(ValidationError::of(
                    "ban_patterns_json",
                    "Ban patterns exceed maximum count of 50",
                ));
            }
            let mut i: usize = 0;
            while i < n
                invariant
                    n == items@.len(),
                    i <= n,
                    forall|k: int| 0 <= k < i ==> spec_valid_ban_entry(#[trigger] items@[k]),
                decreases n - i,
            {
                let item = &items[i];
                match item.as_str() {
                    Some(s) => {
                        if s.as_str().unicode_len() == 0 {
                            let mut msg = String::from_str("Pattern at index ");
                            msg.append(u64_to_string(i as u64).as_str());
                            msg.append(" cannot be empty");
                            return Err(ValidationError {
                                field: String::from_str("ban_patterns_json"),
                                message: msg,
                            });
                        }
                    },
                    None => {
                        if !item.is_object() {
                            let mut msg = String::from_str("Item at index ");
                            msg.append(u64_to_string(i as u64).as_str());
                            msg.append(" must be a string or object");
                            return Err(ValidationError {
                                field: String::from_str("ban_patterns_json"),
                                message: msg,
                            });
                        }
                        let pattern_node = item.get("pattern");
                        let pattern_text = match pattern_node {
                            Some(p) => p.as_str(),
                            None => None,
                        };
                        match pattern_text {
                            Some(p) => {
                                if p.as_str().unicode_len() == 0 {
                                    let mut msg = String::from_str("Pattern at index ");
                                    msg.append(u64_to_string(i as u64).as_str());
                                    msg.append(" cannot be empty");
                                    return Err(ValidationError {
                                        field: String::from_str("ban_patterns_json"),
                                        message: msg,
                                    });
                                }
                                let is_regex = match item.get("is_regex") {
                                    Some(v) => match v.as_bool() {
                                        Some(b) => b,
                                        None => false,
                                    },
                                    None => false,
                                };
                                if is_regex && !regex_ok(p.as_str()) {
                                    let mut msg = String::from_str("Invalid regex at index ");
                                    msg.append(u64_to_string(i as u64).as_str());
                                    return Err(ValidationError {
                                        field: String::from_str("ban_patterns_json"),
                                        message: msg,
                                    });
                                }
                            },
                            None => {
                                let mut msg = String::from_str("Object at index ");
                                msg.append(u64_to_string(i as u64).as_str());
                                msg.append(" must have a 'pattern' string field");
                                return Err(ValidationError {
                                    field: String::from_str("ban_patterns_json"),
                                    message: msg,
                                });
                            },
                        }
                    },
                }
                i = i + 1;
            }
            Ok(())
        },
        None => Err(ValidationError::of("ban_patterns_json", "Ban patterns must be a JSON array")),
    }
}

} // verus!
