//! Tests of the configuration cache and the supervisor registry.

use q_manager::cache::ActionConfig;
use q_manager::cache::WorkerCache;
use q_manager::config::Action;
use q_manager::config::PhasePattern;
use q_manager::config::PhasePatternWithInfo;
use q_manager::supervisor::WorkerRegistry;
use q_manager::worker::build_action_config;
use q_manager::supervisor::build_worker_config;
use q_manager::config::Account;
use q_manager::config::Settings;

fn sample_patterns(tag: &str) -> Vec<PhasePatternWithInfo> {
    vec![PhasePatternWithInfo {
        pattern: PhasePattern {
            id: 1,
            phase_id: 1,
            pattern: tag.to_string(),
            is_regex: false,
            enabled: true,
            priority: 1,
        },
        phase_name: "join_time".to_string(),
        phase_priority: 100,
    }]
}

fn sample_config() -> ActionConfig {
    ActionConfig {
        target_pairs: vec![],
        blacklist: vec![],
        targets: vec!["Alice".to_string()],
        delay_min: 0,
        delay_max: 0,
        button_type: "player_list".to_string(),
        random_fallback_enabled: true,
        is_two_step: false,
    }
}

fn sample_settings() -> Settings {
    Settings {
        api_id: Some(12345),
        api_hash: Some("0123456789abcdef0123456789abcdef".to_string()),
        main_bot_user_id: Some(999),
        main_bot_username: None,
        beta_bot_user_id: None,
        beta_bot_username: None,
        join_max_attempts_default: 5,
        join_cooldown_seconds_default: 5,
        ban_warning_patterns_json: String::new(),
        theme_mode: "dark".to_string(),
        theme_palette: "default".to_string(),
        theme_variant: "default".to_string(),
        created_at: None,
        updated_at: None,
    }
}

fn sample_account(id: i64) -> Account {
    Account {
        id,
        account_name: format!("account{}", id),
        telegram_name: None,
        phone: None,
        user_id: None,
        status: "stopped".to_string(),
        last_seen_at: None,
        api_id_override: None,
        api_hash_override: None,
        join_max_attempts_override: None,
        join_cooldown_seconds_override: None,
        created_at: None,
        updated_at: None,
    }
}

#[test]
fn test_cache_hit_within_ttl() {
    let mut cache = WorkerCache::new();
    let first = cache.get_phase_patterns(0, sample_patterns("loaded")).clone();
    assert_eq!(first.len(), 1);
    assert_eq!(first[0].pattern.pattern, "loaded");

    // A second read within the TTL returns the cached snapshot, not the
    // fresh loader value.
    let second = cache.get_phase_patterns(1_000, sample_patterns("newer")).clone();
    assert_eq!(second[0].pattern.pattern, "loaded");
    assert_eq!(cache.hits, 1);
    assert_eq!(cache.misses, 1);
}

#[test]
fn test_cache_expiry_takes_loader_value() {
    let mut cache = WorkerCache::new();
    cache.get_phase_patterns(0, sample_patterns("loaded"));
    // Five minutes later the entry has expired.
    let refreshed = cache.get_phase_patterns(301_000, sample_patterns("newer")).clone();
    assert_eq!(refreshed[0].pattern.pattern, "newer");
}

#[test]
fn test_invalidate_then_read_returns_loader_value() {
    let mut cache = WorkerCache::new();
    cache.get_phase_patterns(0, sample_patterns("old"));
    cache.invalidate_patterns();
    let read = cache.get_phase_patterns(0, sample_patterns("fresh")).clone();
    assert_eq!(read[0].pattern.pattern, "fresh");

    let actions = cache
        .get_actions(
            0,
            vec![Action {
                id: 1,
                name: "vote".to_string(),
                button_type: "player_list".to_string(),
                random_fallback_enabled: true,
                is_two_step: false,
            }],
        )
        .clone();
    assert_eq!(actions.len(), 1);
    let patterns = cache.get_action_patterns(0, vec![]).clone();
    assert!(patterns.is_empty());
}

#[test]
fn test_action_config_cache_per_account() {
    let mut cache = WorkerCache::new();
    cache.set_action_config(1, 10, sample_config(), 0);
    cache.set_action_config(2, 10, sample_config(), 0);

    assert!(cache.get_action_config(1, 10, 1_000).is_some());
    assert!(cache.get_action_config(2, 10, 1_000).is_some());
    assert!(cache.get_action_config(1, 11, 1_000).is_none());

    // An expired entry no longer serves.
    assert!(cache.get_action_config(1, 10, 301_000).is_none());

    cache.invalidate_targets(1);
    assert!(cache.get_action_config(1, 10, 1_000).is_none());
    assert!(cache.get_action_config(2, 10, 1_000).is_some());

    cache.invalidate_action_configs();
    assert!(cache.get_action_config(2, 10, 1_000).is_none());
}

#[test]
fn test_registry_single_live_handle() {
    let mut registry = WorkerRegistry::new();
    assert!(registry.try_register(1, "one".to_string()).is_ok());
    assert!(registry.is_running(1));

    // A second start on a live worker fails.
    let second = registry.try_register(1, "one".to_string());
    assert!(second.is_err());
    assert!(second.unwrap_err().contains("already running"));
    assert_eq!(registry.entries.len(), 1);

    // A finished worker can be replaced.
    registry.set_live(1, false);
    assert!(!registry.is_running(1));
    assert!(registry.try_register(1, "one".to_string()).is_ok());
    assert_eq!(registry.entries.len(), 1);
}

#[test]
fn test_registry_start_stop_cycle_restores() {
    let mut registry = WorkerRegistry::new();
    registry.try_register(1, "one".to_string()).unwrap();
    registry.try_register(2, "two".to_string()).unwrap();
    assert_eq!(registry.running_accounts(), vec![1, 2]);
    assert_eq!(registry.get_worker_counts(), (2, 2));

    registry.remove(2);
    assert_eq!(registry.running_accounts(), vec![1]);
    assert!(!registry.is_running(2));
    assert_eq!(registry.get_worker_counts(), (1, 1));

    registry.remove(1);
    assert!(registry.entries.is_empty());
}

#[test]
fn test_registry_stop_all_plan() {
    let mut registry = WorkerRegistry::new();
    registry.try_register(1, "one".to_string()).unwrap();
    registry.try_register(2, "two".to_string()).unwrap();
    registry.try_register(3, "three".to_string()).unwrap();

    let ids = registry.all_accounts();
    assert_eq!(ids, vec![1, 2, 3]);
    for id in ids {
        registry.remove(id);
    }
    assert!(registry.entries.is_empty());
}

#[test]
fn test_build_worker_config_success() {
    let slots = vec![
        (-100, "main".to_string(), "Main group".to_string()),
        (-200, "beta".to_string(), "Beta group".to_string()),
    ];
    let config = build_worker_config(
        &sample_account(1),
        &sample_settings(),
        slots,
        "/tmp/sessions/account_1".to_string(),
    )
    .unwrap();

    assert_eq!(config.account_id, 1);
    assert_eq!(config.api_id, 12345);
    assert_eq!(config.group_chat_ids, vec![-100, -200]);
    assert_eq!(config.moderator_bot_ids, vec![999]);
    assert_eq!(config.group_slots.len(), 2);
    // Both slots fall back to the main bot: no beta bot is configured.
    assert_eq!(config.group_slots[0].moderator_bot_id, 999);
    assert_eq!(config.group_slots[1].moderator_bot_id, 999);
    assert_eq!(config.max_join_attempts, 5);
}

#[test]
fn test_build_worker_config_missing_credentials() {
    let mut settings = sample_settings();
    settings.api_id = None;
    let err = build_worker_config(&sample_account(1), &settings, vec![], "/tmp".to_string());
    assert!(err.is_err());

    let mut settings = sample_settings();
    settings.api_hash = Some("   ".to_string());
    let err = build_worker_config(&sample_account(1), &settings, vec![], "/tmp".to_string());
    assert!(err.is_err());

    let mut account = sample_account(1);
    account.api_id_override = Some(0);
    let err = build_worker_config(&account, &sample_settings(), vec![], "/tmp".to_string());
    assert!(err.is_err());
}

#[test]
fn test_build_action_config_merges_rule() {
    let action = Action {
        id: 10,
        name: "vote".to_string(),
        button_type: "player_list".to_string(),
        random_fallback_enabled: true,
        is_two_step: false,
    };

    // The rule text supplies the targets and overrides the fallback flag;
    // non-string targets are skipped and the delays are clamped.
    let config = build_action_config(
        &action,
        (-3, 4000),
        vec![],
        vec!["Mallory".to_string()],
        Some(r#"{"targets": ["Alice", 7, "Bob"], "random_fallback": false}"#),
    );
    assert_eq!(config.targets, vec!["Alice".to_string(), "Bob".to_string()]);
    assert!(!config.random_fallback_enabled);
    assert_eq!(config.delay_min, 0);
    assert_eq!(config.delay_max, 3600);
    assert_eq!(config.blacklist, vec!["Mallory".to_string()]);
    assert_eq!(config.button_type, "player_list");

    // Without a rule text the action's own flag stands and no targets are
    // configured; a malformed text counts as no rule.
    let config = build_action_config(&action, (2, 8), vec![], vec![], None);
    assert!(config.targets.is_empty());
    assert!(config.random_fallback_enabled);
    let config = build_action_config(&action, (2, 8), vec![], vec![], Some("not json"));
    assert!(config.targets.is_empty());
    assert!(config.random_fallback_enabled);
}
