//! The configuration data model: accounts, settings, phases, actions and
//! their patterns, as the configuration layer stores them.

use vstd::prelude::*;

verus! {

/// Version counters that the configuration layer bumps when patterns change.
#[derive(Clone, Debug)]
pub struct PatternVersions {
    pub phase_version: i64,
    pub action_version: i64,
}

/// Process-wide settings.
#[derive(Clone, Debug)]
pub struct Settings {
    pub api_id: Option<i64>,
    pub api_hash: Option<String>,
    pub main_bot_user_id: Option<i64>,
    pub main_bot_username: Option<String>,
    pub beta_bot_user_id: Option<i64>,
    pub beta_bot_username: Option<String>,
    pub join_max_attempts_default: i32,
    pub join_cooldown_seconds_default: i32,
    pub ban_warning_patterns_json: String,
    pub theme_mode: String,
    pub theme_palette: String,
    pub theme_variant: String,
    pub created_at: Option<String>,
    pub updated_at: Option<String>,
}

/// A partial settings update; absent fields keep their stored value.
#[derive(Clone, Debug)]
pub struct SettingsUpdate {
    pub api_id: Option<i64>,
    pub api_hash: Option<String>,
    pub main_bot_user_id: Option<i64>,
    pub main_bot_username: Option<String>,
    pub beta_bot_user_id: Option<i64>,
    pub beta_bot_username: Option<String>,
    pub join_max_attempts_default: Option<i32>,
    pub join_cooldown_seconds_default: Option<i32>,
    pub ban_warning_patterns_json: Option<String>,
    pub theme_mode: Option<String>,
    pub theme_palette: Option<String>,
    pub theme_variant: Option<String>,
}

/// A stored account.
#[derive(Clone, Debug)]
pub struct Account {
    pub id: i64,
    pub account_name: String,
    pub telegram_name: Option<String>,
    pub phone: Option<String>,
    pub user_id: Option<i64>,
    pub status: String,
    pub last_seen_at: Option<String>,
    pub api_id_override: Option<i64>,
    pub api_hash_override: Option<String>,
    pub join_max_attempts_override: Option<i32>,
    pub join_cooldown_seconds_override: Option<i32>,
    pub created_at: Option<String>,
    pub updated_at: Option<String>,
}

/// The fields needed to create an account.
#[derive(Clone, Debug)]
pub struct AccountCreate {
    pub account_name: String,
    pub telegram_name: Option<String>,
    pub phone: Option<String>,
    pub user_id: Option<i64>,
    pub api_id_override: Option<i64>,
    pub api_hash_override: Option<String>,
}

/// A game phase; priority decides which phase wins when several match.
#[derive(Clone, Debug)]
pub struct Phase {
    pub id: i64,
    pub name: String,
    pub display_name: String,
    pub priority: i32,
}

/// A text pattern that detects a phase.
#[derive(Clone, Debug)]
pub struct PhasePattern {
    pub id: i64,
    pub phase_id: i64,
    pub pattern: String,
    pub is_regex: bool,
    pub enabled: bool,
    pub priority: i32,
}

/// The fields needed to create a phase pattern.
#[derive(Clone, Debug)]
pub struct PhasePatternCreate {
    pub phase_id: i64,
    pub pattern: String,
    pub is_regex: bool,
    pub enabled: bool,
    pub priority: i32,
}

/// A game action prompt and its button-selection strategy.
#[derive(Clone, Debug)]
pub struct Action {
    pub id: i64,
    pub name: String,
    pub button_type: String,
    pub random_fallback_enabled: bool,
    pub is_two_step: bool,
}

/// The fields needed to create an action.
#[derive(Clone, Debug)]
pub struct ActionCreate {
    pub name: String,
    pub button_type: String,
    pub random_fallback_enabled: bool,
    pub is_two_step: bool,
}

/// A text pattern that detects an action prompt; `step` distinguishes the two
/// prompts of a two-step action.
#[derive(Clone, Debug)]
pub struct ActionPattern {
    pub id: i64,
    pub action_id: i64,
    pub pattern: String,
    pub is_regex: bool,
    pub enabled: bool,
    pub priority: i32,
    pub step: i32,
}

/// The fields needed to create an action pattern.
#[derive(Clone, Debug)]
pub struct ActionPatternCreate {
    pub action_id: i64,
    pub pattern: String,
    pub is_regex: bool,
    pub enabled: bool,
    pub priority: i32,
    pub step: i32,
}

/// A phase pattern joined with its phase's name and priority, as the
/// detection pipeline consumes it.
#[derive(Clone, Debug)]
pub struct PhasePatternWithInfo {
    pub pattern: PhasePattern,
    pub phase_name: String,
    pub phase_priority: i32,
}

} // verus!
