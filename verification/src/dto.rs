//! The request and row shapes the configuration commands exchange with the
//! interface layer.

use vstd::prelude::*;
use crate::startup::StartupCheckError;
use crate::telethon::AuthState;

verus! {

/// The outcome of a bulk start for one account.
#[derive(Debug)]
pub struct BulkStartReport {
    pub account_id: i64,
    pub account_name: String,
    pub started: bool,
    pub errors: Vec<StartupCheckError>,
}

/// A partial account update.
#[derive(Debug, Clone)]
pub struct AccountUpdate {
    pub id: i64,
    pub account_name: Option<String>,
    pub api_id_override: Option<i64>,
    pub api_hash_override: Option<String>,
    pub join_max_attempts_override: Option<i32>,
    pub join_cooldown_seconds_override: Option<i32>,
}

/// A full action update.
#[derive(Debug, Clone)]
pub struct ActionUpdate {
    pub id: i64,
    pub name: String,
    pub button_type: String,
    pub random_fallback_enabled: bool,
    pub is_two_step: bool,
}

/// The fields needed to create an action pattern through a command.
#[derive(Debug, Clone)]
pub struct ActionPatternCreate {
    pub action_id: i64,
    pub pattern: String,
    pub is_regex: bool,
    pub enabled: bool,
    pub priority: i32,
    pub step: i32,
}

/// A full action-pattern update.
#[derive(Debug, Clone)]
pub struct ActionPatternUpdate {
    pub id: i64,
    pub pattern: String,
    pub is_regex: bool,
    pub enabled: bool,
    pub priority: i32,
    pub step: i32,
}

/// One group slot of an account.
#[derive(Debug, Clone)]
pub struct GroupSlot {
    pub id: i64,
    pub account_id: i64,
    pub slot: i32,
    pub enabled: bool,
    pub group_id: Option<i64>,
    pub group_title: Option<String>,
    pub moderator_kind: String,
}

/// A group-slot update.
#[derive(Debug, Clone)]
pub struct GroupSlotUpdate {
    pub account_id: i64,
    pub slot: i32,
    pub enabled: bool,
    pub group_id: Option<i64>,
    pub group_title: Option<String>,
    pub moderator_kind: String,
}

/// One group as the account's client lists it.
#[derive(Debug, Clone)]
pub struct TelegramGroup {
    pub id: i64,
    pub title: String,
    pub group_type: String,
    pub member_count: Option<i32>,
}

/// A full phase-pattern update.
#[derive(Debug, Clone)]
pub struct PhasePatternUpdate {
    pub id: i64,
    pub pattern: String,
    pub is_regex: bool,
    pub enabled: bool,
    pub priority: i32,
}

/// Progress of a login flow, for interface feedback.
#[derive(Debug, Clone)]
pub struct LoginProgressEvent {
    pub token: String,
    pub step: String,
    pub message: String,
    pub progress: u8,
}

/// The handle and state a started login flow reports.
#[derive(Debug)]
pub struct LoginStartResult {
    pub token: String,
    pub state: AuthState,
}

/// The default target rule of an action.
#[derive(Debug, Clone)]
pub struct TargetDefault {
    pub id: i64,
    pub action_id: i64,
    pub rule_json: String,
}

/// A per-account override of an action's target rule.
#[derive(Debug, Clone)]
pub struct TargetOverride {
    pub id: i64,
    pub account_id: i64,
    pub action_id: i64,
    pub rule_json: String,
}

/// One blacklisted button text for an account and action.
#[derive(Debug, Clone)]
pub struct BlacklistEntry {
    pub id: i64,
    pub account_id: i64,
    pub action_id: i64,
    pub button_text: String,
}

/// The default pre-click delay range of an action.
#[derive(Debug, Clone)]
pub struct DelayDefault {
    pub id: i64,
    pub action_id: i64,
    pub min_seconds: i32,
    pub max_seconds: i32,
}

/// A per-account override of an action's delay range.
#[derive(Debug, Clone)]
pub struct DelayOverride {
    pub id: i64,
    pub account_id: i64,
    pub action_id: i64,
    pub min_seconds: i32,
    pub max_seconds: i32,
}

/// One ordered name pair for a two-step action.
#[derive(Debug, Clone)]
pub struct TargetPair {
    pub id: i64,
    pub account_id: i64,
    pub action_id: i64,
    pub order_index: i32,
    pub target_a: String,
    pub target_b: String,
}

} // verus!
