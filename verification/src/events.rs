//! Observer events: the payloads emitted to the user interface when status,
//! detections or logs change.
//!
//! The builders here assemble the payloads; sending them is fire-and-forget
//! and happens outside the library, which also supplies the timestamp text.

use vstd::prelude::*;
use vstd::string::StringExecFns;

verus! {

/// An account's status tag changed.
#[derive(Debug)]
pub struct AccountStatusEvent {
    pub account_id: i64,
    pub status: String,
    pub message: Option<String>,
}

/// A phase was detected for an account.
#[derive(Debug)]
pub struct PhaseDetectedEvent {
    pub account_id: i64,
    pub account_name: String,
    pub phase_name: String,
    pub timestamp: String,
}

/// An action was detected, and possibly a button clicked.
#[derive(Debug)]
pub struct ActionDetectedEvent {
    pub account_id: i64,
    pub account_name: String,
    pub action_name: String,
    pub button_clicked: Option<String>,
    pub timestamp: String,
}

/// A join attempt was made.
#[derive(Debug)]
pub struct JoinAttemptEvent {
    pub account_id: i64,
    pub account_name: String,
    pub attempt: i32,
    pub max_attempts: i32,
    pub success: bool,
    pub timestamp: String,
}

/// A level-tagged log line for an account.
#[derive(Debug)]
pub struct LogEvent {
    pub account_id: i64,
    pub account_name: String,
    pub level: String,
    pub message: String,
    pub timestamp: String,
}

/// A pattern failed to compile while matching.
#[derive(Debug)]
pub struct RegexValidationEvent {
    pub scope: String,
    pub pattern: String,
    pub error: String,
}

/// Build an account-status event.
pub fn emit_account_status(account_id: i64, status: &str, message: Option<String>) -> (r:
    AccountStatusEvent)
    ensures
        r.account_id == account_id,
        r.status@ == status@,
        r.message == message,
{
    AccountStatusEvent { account_id, status: String::from_str(status), message }
}

/// Build a phase-detected event.
pub fn emit_phase_detected(account_id: i64, account_name: &str, phase_name: &str, timestamp: String) -> (r: PhaseDetectedEvent)
    ensures
        r.account_id == account_id,
        r.account_name@ == account_name@,
        r.phase_name@ == phase_name@,
        r.timestamp == timestamp,
{
    PhaseDetectedEvent {
        account_id,
        account_name: String::from_str(account_name),
        phase_name: String::from_str(phase_name),
        timestamp,
    }
}

/// Build an action-detected event.
pub fn emit_action_detected(
    account_id: i64,
    account_name: &str,
    action_name: &str,
    button_clicked: Option<String>,
    timestamp: String,
) -> (r: ActionDetectedEvent)
    ensures
        r.account_id == account_id,
        r.account_name@ == account_name@,
        r.action_name@ == action_name@,
        r.button_clicked == button_clicked,
        r.timestamp == timestamp,
{
    ActionDetectedEvent {
        account_id,
        account_name: String::from_str(account_name),
        action_name: String::from_str(action_name),
        button_clicked,
        timestamp,
    }
}

/// Build a join-attempt event.
pub fn emit_join_attempt(
    account_id: i64,
    account_name: &str,
    attempt: i32,
    max_attempts: i32,
    success: bool,
    timestamp: String,
) -> (r: JoinAttemptEvent)
    ensures
        r.account_id == account_id,
        r.account_name@ == account_name@,
        r.attempt == attempt,
        r.max_attempts == max_attempts,
        r.success == success,
        r.timestamp == timestamp,
{
    JoinAttemptEvent {
        account_id,
        account_name: String::from_str(account_name),
        attempt,
        max_attempts,
        success,
        timestamp,
    }
}

/// Build a log event.
pub fn emit_log(account_id: i64, account_name: &str, level: &str, message: &str, timestamp: String) -> (r: LogEvent)
    ensures
        r.account_id == account_id,
        r.account_name@ == account_name@,
        r.level@ == level@,
        r.message@ == message@,
        r.timestamp == timestamp,
{
    LogEvent {
        account_id,
        account_name: String::from_str(account_name),
        level: String::from_str(level),
        message: String::from_str(message),
        timestamp,
    }
}

/// Build a regex-validation event.
pub fn emit_regex_validation(scope: &str, pattern: &str, error: &str) -> (r: RegexValidationEvent)
    ensures
        r.scope@ == scope@,
        r.pattern@ == pattern@,
        r.error@ == error@,
{
    RegexValidationEvent {
        scope: String::from_str(scope),
        pattern: String::from_str(pattern),
        error: String::from_str(error),
    }
}

} // verus!
