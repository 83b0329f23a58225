//! Tests of the account worker: lifecycle, joining, button selection,
//! two-step actions, flood handling and reconnection.

use q_manager::cache::ActionConfig;
use q_manager::config::Action;
use q_manager::config::ActionPattern;
use q_manager::config::PhasePattern;
use q_manager::json::JsonNode;
use q_manager::telethon::TelethonButton;
use q_manager::telethon::TelethonMessage;
use q_manager::telethon::TelethonResponse;
use q_manager::worker::AccountWorker;
use q_manager::worker::ClientRequest;
use q_manager::worker::GroupSlotConfig;
use q_manager::worker::ResponseDirective;
use q_manager::worker::WorkerConfig;
use q_manager::worker::WorkerEffect;
use q_manager::worker::WorkerState;
use q_manager::worker::parse_start_parameter;
use q_manager::selection::draw_delay_ms;
use q_manager::selection::filter_blacklist;

fn create_test_config() -> WorkerConfig {
    WorkerConfig {
        account_id: 1,
        account_name: "TestAccount".to_string(),
        api_id: 12345,
        api_hash: "test_hash".to_string(),
        session_dir: "/tmp/test_session".to_string(),
        group_slots: vec![],
        group_chat_ids: vec![-1001234567890],
        moderator_bot_ids: vec![123456789],
        main_bot_id: Some(123456789),
        beta_bot_id: None,
        max_join_attempts: 5,
        join_cooldown_seconds: 5,
    }
}

fn game_config() -> WorkerConfig {
    WorkerConfig {
        account_id: 1,
        account_name: "TestAccount".to_string(),
        api_id: 12345,
        api_hash: "test_hash".to_string(),
        session_dir: "/tmp/test_session".to_string(),
        group_slots: vec![],
        group_chat_ids: vec![-100],
        moderator_bot_ids: vec![999],
        main_bot_id: Some(999),
        beta_bot_id: None,
        max_join_attempts: 5,
        join_cooldown_seconds: 5,
    }
}

fn callback_button(text: &str) -> TelethonButton {
    TelethonButton {
        text: text.to_string(),
        kind: "callback".to_string(),
        data: Some(format!("data:{}", text)),
        url: None,
    }
}

fn url_button(url: &str) -> TelethonButton {
    TelethonButton {
        text: "Join".to_string(),
        kind: "url".to_string(),
        data: None,
        url: Some(url.to_string()),
    }
}

fn message(id: i64, chat_id: i64, sender_id: i64, text: &str, buttons: Vec<TelethonButton>) -> TelethonMessage {
    TelethonMessage {
        id,
        chat_id,
        sender_id,
        text: text.to_string(),
        is_outgoing: false,
        buttons: vec![buttons],
    }
}

fn phase_row(id: i64, pattern: &str, phase_name: &str, phase_priority: i32) -> (PhasePattern, String, i32) {
    (
        PhasePattern {
            id,
            phase_id: id,
            pattern: pattern.to_string(),
            is_regex: false,
            enabled: true,
            priority: 100,
        },
        phase_name.to_string(),
        phase_priority,
    )
}

fn vote_action(random_fallback_enabled: bool) -> Action {
    Action {
        id: 10,
        name: "vote".to_string(),
        button_type: "player_list".to_string(),
        random_fallback_enabled,
        is_two_step: false,
    }
}

fn vote_pattern() -> ActionPattern {
    ActionPattern {
        id: 20,
        action_id: 10,
        pattern: "vote".to_string(),
        is_regex: false,
        enabled: true,
        priority: 10,
        step: 1,
    }
}

fn vote_config(targets: Vec<&str>, blacklist: Vec<&str>, random_fallback_enabled: bool) -> ActionConfig {
    ActionConfig {
        target_pairs: vec![],
        blacklist: blacklist.into_iter().map(|s| s.to_string()).collect(),
        targets: targets.into_iter().map(|s| s.to_string()).collect(),
        delay_min: 0,
        delay_max: 0,
        button_type: "player_list".to_string(),
        random_fallback_enabled,
        is_two_step: false,
    }
}

#[test]
fn test_worker_creation() {
    let config = create_test_config();
    let worker = AccountWorker::new(config.clone());

    assert_eq!(worker.account_id(), config.account_id);
    assert_eq!(*worker.state(), WorkerState::Stopped);
}

#[test]
fn test_reset_game_state() {
    let config = create_test_config();
    let worker = AccountWorker::new(config);

    assert_eq!(*worker.state(), WorkerState::Stopped);
}

#[test]
fn test_get_moderator_for_group() {
    let mut config = create_test_config();
    config.group_slots = vec![
        GroupSlotConfig {
            group_id: -1001111111111,
            group_title: "Group 1".to_string(),
            moderator_kind: "main".to_string(),
            moderator_bot_id: 111111111,
        },
        GroupSlotConfig {
            group_id: -1002222222222,
            group_title: "Group 2".to_string(),
            moderator_kind: "beta".to_string(),
            moderator_bot_id: 222222222,
        },
    ];

    let worker = AccountWorker::new(config);

    assert_eq!(worker.get_moderator_for_group(-1001111111111), Some(111111111));
    assert_eq!(worker.get_moderator_for_group(-1002222222222), Some(222222222));

    // Unknown group should return first available bot
    assert_eq!(worker.get_moderator_for_group(-1009999999999), Some(123456789));
}

#[test]
fn test_url_parsing() {
    let url = "https://t.me/botname?start=game123";
    assert_eq!(parse_start_parameter(url), Some("game123".to_string()));
    assert_eq!(parse_start_parameter("https://t.me/botname"), None);
    assert_eq!(parse_start_parameter("not a url"), None);
}

#[test]
fn test_game_state_transitions() {
    let mut worker = AccountWorker::new(game_config());
    worker.load_detection_patterns(
        0,
        vec![
            phase_row(1, "Please join", "join_time", 100),
            phase_row(2, "you joined", "join_confirmation", 90),
            phase_row(3, "game has started", "game_start", 80),
            phase_row(4, "game is over", "game_end", 70),
        ],
        vec![],
        vec![],
        "",
        vec![],
    );

    assert!(!worker.game_state.joined);
    assert!(!worker.game_state.game_started);

    worker.handle_telethon_message(0, &message(1, -100, 999, "you joined", vec![]));
    assert!(worker.game_state.joined);
    assert!(!worker.game_state.game_started);

    worker.handle_telethon_message(1_000, &message(2, -100, 999, "game has started", vec![]));
    assert!(worker.game_state.joined);
    assert!(worker.game_state.game_started);
    assert!(!worker.game_state.game_ended);

    // A game end resets everything for the next game.
    worker.handle_telethon_message(2_000, &message(3, -100, 999, "game is over", vec![]));
    assert!(!worker.game_state.joined && !worker.game_state.game_started);
    assert!(!worker.game_state.game_ended);
}

#[test]
fn test_ban_warning_detection() {
    let mut worker = AccountWorker::new(game_config());
    worker.load_detection_patterns(
        0,
        vec![],
        vec![],
        vec![],
        r#"[{"pattern": "Warning:", "is_regex": false}]"#,
        vec![],
    );

    assert!(worker.check_ban_warning("Warning: You have been reported for spam"));
    assert!(!worker.check_ban_warning("all quiet"));

    // A direct message from the moderator bot trips the flag.
    worker.handle_telethon_message(0, &message(1, 555, 999, "Warning: final notice", vec![]));
    assert!(worker.game_state.ban_warned);
}

#[test]
fn test_blacklist_filtering() {
    let blacklist = vec!["Player1".to_string(), "Player2".to_string()];
    let buttons = vec![
        callback_button("Player1"),
        callback_button("Player2"),
        callback_button("Player3"),
        callback_button("Player4"),
    ];

    let filtered = filter_blacklist(&buttons, &blacklist);

    assert_eq!(filtered.len(), 2);
    assert!(filtered.iter().any(|b| b.text == "Player3"));
    assert!(filtered.iter().any(|b| b.text == "Player4"));
}

#[test]
fn test_delay_calculation() {
    for _ in 0..10 {
        let delay = draw_delay_ms(2, 5);
        assert!(delay >= 2000 && delay <= 5000);
    }
    assert_eq!(draw_delay_ms(5, 5), 5000);
    assert_eq!(draw_delay_ms(7, 2), 7000);
}

#[test]
fn test_exponential_backoff() {
    let mut worker = AccountWorker::new(create_test_config());
    let mut delays = Vec::new();
    while let Some(delay) = worker.begin_reconnect(0) {
        delays.push(delay);
        worker.on_reconnect_result(false);
    }
    assert_eq!(delays, vec![1000, 2000, 4000, 8000, 16000]);
    for delay in delays {
        assert!(delay <= 30000);
    }
}

#[test]
fn test_join_happy_path() {
    let mut worker = AccountWorker::new(game_config());
    worker.load_detection_patterns(
        0,
        vec![phase_row(1, "Join now", "join_time", 100)],
        vec![],
        vec![],
        "",
        vec![],
    );

    let msg = message(
        7,
        -100,
        999,
        "Join now, game starts soon",
        vec![url_button("https://t.me/mod?start=GAME1")],
    );
    let effects = worker.handle_telethon_message(100_000, &msg);

    assert_eq!(worker.join_attempts, 1);
    assert_eq!(worker.last_join_attempt, Some(100_000));

    let phases: Vec<_> = effects
        .iter()
        .filter(|e| matches!(e, WorkerEffect::PhaseDetected { .. }))
        .collect();
    assert_eq!(phases.len(), 1);

    assert!(effects.iter().any(|e| matches!(
        e,
        WorkerEffect::JoinAttempt { attempt: 1, max_attempts: 5 }
    )));

    let dispatches: Vec<_> = effects
        .iter()
        .filter_map(|e| match e {
            WorkerEffect::Dispatch { request, .. } => Some(request),
            _ => None,
        })
        .collect();
    assert_eq!(dispatches.len(), 1);
    assert_eq!(
        dispatches[0],
        &ClientRequest::SendMessage {
            chat_id: 999,
            text: "/start GAME1".to_string()
        }
    );
}

#[test]
fn test_join_confirmation_resets_counter() {
    let mut worker = AccountWorker::new(game_config());
    worker.load_detection_patterns(
        0,
        vec![
            phase_row(1, "Join now", "join_time", 100),
            phase_row(2, "you are in", "join_confirmation", 90),
        ],
        vec![],
        vec![],
        "",
        vec![],
    );

    let join_msg = message(
        7,
        -100,
        999,
        "Join now, game starts soon",
        vec![url_button("https://t.me/mod?start=GAME1")],
    );
    worker.handle_telethon_message(100_000, &join_msg);
    assert_eq!(worker.join_attempts, 1);

    worker.handle_telethon_message(101_000, &message(8, -100, 999, "you are in", vec![]));
    assert!(worker.game_state.joined);
    assert_eq!(worker.join_attempts, 0);

    // Another join prompt in the same game must not trigger a new attempt.
    let effects = worker.handle_telethon_message(200_000, &join_msg);
    assert_eq!(worker.join_attempts, 0);
    assert!(!effects
        .iter()
        .any(|e| matches!(e, WorkerEffect::JoinAttempt { .. })));
}

#[test]
fn test_join_cooldown_and_cap() {
    let mut worker = AccountWorker::new(game_config());
    worker.load_detection_patterns(
        0,
        vec![phase_row(1, "Join now", "join_time", 100)],
        vec![],
        vec![],
        "",
        vec![],
    );
    let join_msg = message(
        7,
        -100,
        999,
        "Join now",
        vec![url_button("https://t.me/mod?start=GAME1")],
    );

    worker.handle_telethon_message(0, &join_msg);
    assert_eq!(worker.join_attempts, 1);

    // Within the five-second cooldown nothing happens.
    worker.handle_telethon_message(2_000, &join_msg);
    assert_eq!(worker.join_attempts, 1);

    // After the cooldown the next attempt runs, up to the cap of five.
    let mut t = 10_000;
    for expected in 2..=5 {
        worker.handle_telethon_message(t, &join_msg);
        assert_eq!(worker.join_attempts, expected);
        t += 10_000;
    }
    worker.handle_telethon_message(t, &join_msg);
    assert_eq!(worker.join_attempts, 5);
}

#[test]
fn test_action_explicit_target() {
    let mut worker = AccountWorker::new(game_config());
    worker.load_detection_patterns(
        0,
        vec![],
        vec![vote_action(false)],
        vec![vote_pattern()],
        "",
        vec![(10, vote_config(vec!["Alice", "Bob"], vec![], false))],
    );

    let msg = message(
        42,
        -100,
        999,
        "time to vote",
        vec![
            callback_button("Charlie"),
            callback_button("Alice"),
            callback_button("Dave"),
        ],
    );
    let effects = worker.handle_telethon_message(0, &msg);

    let dispatches: Vec<_> = effects
        .iter()
        .filter_map(|e| match e {
            WorkerEffect::Dispatch { request, .. } => Some(request),
            _ => None,
        })
        .collect();
    assert_eq!(dispatches.len(), 1);
    assert_eq!(
        dispatches[0],
        &ClientRequest::ClickButton {
            chat_id: -100,
            message_id: 42,
            data: "data:Alice".to_string()
        }
    );
    assert!(effects.iter().any(|e| matches!(
        e,
        WorkerEffect::ActionDetected { action_name, button: Some(b) }
            if action_name == "vote" && b == "Alice"
    )));
}

#[test]
fn test_random_fallback_respects_blacklist() {
    let mut worker = AccountWorker::new(game_config());
    worker.load_detection_patterns(
        0,
        vec![],
        vec![vote_action(true)],
        vec![vote_pattern()],
        "",
        vec![(10, vote_config(vec![], vec!["Charlie"], true))],
    );

    let msg = message(
        42,
        -100,
        999,
        "time to vote",
        vec![callback_button("Charlie"), callback_button("Dave")],
    );
    for _ in 0..10 {
        let effects = worker.handle_telethon_message(0, &msg);
        let clicked: Vec<_> = effects
            .iter()
            .filter_map(|e| match e {
                WorkerEffect::Dispatch { request: ClientRequest::ClickButton { data, .. }, .. } => {
                    Some(data.clone())
                }
                _ => None,
            })
            .collect();
        assert_eq!(clicked, vec!["data:Dave".to_string()]);
    }
}

#[test]
fn test_no_fallback_no_click() {
    let mut worker = AccountWorker::new(game_config());
    worker.load_detection_patterns(
        0,
        vec![],
        vec![vote_action(false)],
        vec![vote_pattern()],
        "",
        vec![(10, vote_config(vec!["Nobody"], vec![], false))],
    );

    let msg = message(
        42,
        -100,
        999,
        "time to vote",
        vec![callback_button("Charlie"), callback_button("Dave")],
    );
    let effects = worker.handle_telethon_message(0, &msg);
    assert!(!effects
        .iter()
        .any(|e| matches!(e, WorkerEffect::Dispatch { .. })));
}

#[test]
fn test_two_step_pairing() {
    let mut worker = AccountWorker::new(game_config());
    let cupid = Action {
        id: 30,
        name: "cupid".to_string(),
        button_type: "player_list".to_string(),
        random_fallback_enabled: false,
        is_two_step: true,
    };
    let cupid_config = ActionConfig {
        target_pairs: vec![("Alice".to_string(), "Bob".to_string())],
        blacklist: vec![],
        targets: vec![],
        delay_min: 0,
        delay_max: 0,
        button_type: "player_list".to_string(),
        random_fallback_enabled: false,
        is_two_step: true,
    };
    worker.load_detection_patterns(0, vec![], vec![cupid], vec![], "", vec![(30, cupid_config)]);

    let step1 = message(
        50,
        777,
        999,
        "choose the first lover",
        vec![callback_button("Alice"), callback_button("Carol")],
    );
    let effects1 = worker.handle_action(0, 30, "cupid", 1, &step1);
    assert!(effects1.is_empty());
    assert_eq!(worker.two_step_cache.len(), 1);

    let step2 = message(
        51,
        777,
        999,
        "choose the second lover",
        vec![callback_button("Bob"), callback_button("Dave")],
    );
    let effects2 = worker.handle_action(0, 30, "cupid", 2, &step2);

    let dispatches: Vec<_> = effects2
        .iter()
        .filter_map(|e| match e {
            WorkerEffect::Dispatch { request, .. } => Some(request),
            _ => None,
        })
        .collect();
    assert_eq!(dispatches.len(), 2);
    assert_eq!(
        dispatches[0],
        &ClientRequest::ClickButton {
            chat_id: 777,
            message_id: 50,
            data: "data:Alice".to_string()
        }
    );
    assert_eq!(
        dispatches[1],
        &ClientRequest::ClickButton {
            chat_id: 777,
            message_id: 51,
            data: "data:Bob".to_string()
        }
    );

    let labels: Vec<_> = effects2
        .iter()
        .filter_map(|e| match e {
            WorkerEffect::ActionDetected { action_name, .. } => Some(action_name.clone()),
            _ => None,
        })
        .collect();
    assert_eq!(labels, vec!["cupid (Step 1)".to_string(), "cupid (Step 2)".to_string()]);

    // The cached entry is dropped after resolution.
    assert!(worker.two_step_cache.is_empty());
}

#[test]
fn test_two_step_without_cache_never_clicks() {
    let mut worker = AccountWorker::new(game_config());
    let cupid_config = ActionConfig {
        target_pairs: vec![("Alice".to_string(), "Bob".to_string())],
        blacklist: vec![],
        targets: vec![],
        delay_min: 0,
        delay_max: 0,
        button_type: "player_list".to_string(),
        random_fallback_enabled: false,
        is_two_step: true,
    };
    worker.load_detection_patterns(0, vec![], vec![], vec![], "", vec![(30, cupid_config)]);

    let step2 = message(51, 777, 999, "second prompt", vec![callback_button("Bob")]);
    let effects = worker.handle_action(0, 30, "cupid", 2, &step2);
    assert!(!effects
        .iter()
        .any(|e| matches!(e, WorkerEffect::Dispatch { .. })));
    assert!(effects.iter().any(|e| matches!(e, WorkerEffect::Log { .. })));
}

#[test]
fn test_flood_wait_observed() {
    let mut worker = AccountWorker::new(game_config());
    let response = TelethonResponse {
        id: "req_1".to_string(),
        ok: false,
        payload: Some(JsonNode::Obj(vec![
            ("code".to_string(), JsonNode::Str("FLOOD_WAIT".to_string())),
            ("seconds".to_string(), JsonNode::Num(Some(3))),
        ])),
        error: None,
    };
    let (effects, directive) = worker.handle_telethon_response(1_000, &response);
    assert_eq!(directive, ResponseDirective::SleepSeconds(3));
    assert!(effects.iter().any(|e| matches!(
        e,
        WorkerEffect::Log { level, .. } if level == "warn"
    )));
    assert_eq!(worker.send_blocked_until, 1_000 + 3_000);
    // No retry of the click: the directive only asks for a sleep.
    assert_eq!(*worker.state(), WorkerState::Stopped);
}

#[test]
fn test_auth_revoked_is_fatal() {
    let mut worker = AccountWorker::new(game_config());
    worker.begin_start().unwrap();
    worker.finish_start(true, None);
    assert_eq!(*worker.state(), WorkerState::Running);

    let response = TelethonResponse {
        id: "req_2".to_string(),
        ok: false,
        payload: Some(JsonNode::Obj(vec![(
            "code".to_string(),
            JsonNode::Str("AUTH_REVOKED".to_string()),
        )])),
        error: None,
    };
    let (_, directive) = worker.handle_telethon_response(0, &response);
    assert!(matches!(directive, ResponseDirective::Fatal(_)));
    assert!(matches!(worker.state(), WorkerState::Error(_)));
}

#[test]
fn test_reconnect_exhaustion() {
    let mut worker = AccountWorker::new(create_test_config());
    worker.begin_start().unwrap();
    worker.finish_start(true, None);

    let mut attempts = 0;
    let mut last_effects = Vec::new();
    loop {
        match worker.begin_reconnect(0) {
            Some(_) => {
                attempts += 1;
                last_effects = worker.on_reconnect_result(false);
            }
            None => break,
        }
    }
    assert_eq!(attempts, 5);
    assert!(matches!(worker.state(), WorkerState::Error(_)));
    // The exhaustion emits the error status and an error log.
    assert!(last_effects.iter().any(|e| matches!(
        e,
        WorkerEffect::AccountStatus { status, .. } if status == "error"
    )));
    assert!(last_effects.iter().any(|e| matches!(
        e,
        WorkerEffect::Log { level, .. } if level == "error"
    )));
    // No sixth attempt begins.
    assert!(worker.begin_reconnect(0).is_none());
}

#[test]
fn test_recoverable_error_classification() {
    assert!(AccountWorker::is_recoverable_error("Network unreachable"));
    assert!(AccountWorker::is_recoverable_error("Connection reset"));
    assert!(AccountWorker::is_recoverable_error("FLOOD wait"));
    assert!(!AccountWorker::is_recoverable_error("auth key invalid"));
    assert!(!AccountWorker::is_recoverable_error("account banned"));
    assert!(!AccountWorker::is_recoverable_error("something novel"));
}

#[test]
fn test_worker_stop_resets_state() {
    let mut worker = AccountWorker::new(game_config());
    assert!(worker.stop().is_err());
    worker.begin_start().unwrap();
    worker.finish_start(true, None);
    worker.game_state.joined = true;
    worker.join_attempts = 3;
    assert!(worker.stop().is_ok());
    assert_eq!(*worker.state(), WorkerState::Stopped);
    assert!(!worker.game_state.joined);
    assert_eq!(worker.join_attempts, 0);
}

#[test]
fn test_action_config_miss_requests_load() {
    let mut worker = AccountWorker::new(game_config());
    // The pattern catalog knows the action, but no resolved config was
    // preloaded for this account.
    worker.load_detection_patterns(0, vec![], vec![vote_action(true)], vec![vote_pattern()], "", vec![]);

    let msg = message(
        42,
        -100,
        999,
        "time to vote",
        vec![callback_button("Charlie"), callback_button("Dave")],
    );
    let effects = worker.handle_telethon_message(0, &msg);
    assert!(!effects
        .iter()
        .any(|e| matches!(e, WorkerEffect::Dispatch { .. })));
    assert!(effects
        .iter()
        .any(|e| matches!(e, WorkerEffect::ActionConfigNeeded { action_id: 10 })));

    // Once the runtime supplies the resolved rules, the next prompt acts.
    worker
        .cache
        .set_action_config(1, 10, vote_config(vec!["Dave"], vec![], false), 1_000);
    let effects = worker.handle_telethon_message(1_000, &msg);
    assert!(effects.iter().any(|e| matches!(
        e,
        WorkerEffect::Dispatch { request: ClientRequest::ClickButton { .. }, .. }
    )));
}

#[test]
fn test_action_config_expiry_is_surfaced() {
    let mut worker = AccountWorker::new(game_config());
    worker.load_detection_patterns(
        0,
        vec![],
        vec![vote_action(true)],
        vec![vote_pattern()],
        "",
        vec![(10, vote_config(vec![], vec![], true))],
    );

    let msg = message(42, -100, 999, "time to vote", vec![callback_button("Dave")]);
    // Past the five-minute TTL the stale rules are not silently replaced by
    // defaults: the worker asks for a load and clicks nothing.
    let effects = worker.handle_telethon_message(301_000, &msg);
    assert!(!effects
        .iter()
        .any(|e| matches!(e, WorkerEffect::Dispatch { .. })));
    assert!(effects
        .iter()
        .any(|e| matches!(e, WorkerEffect::ActionConfigNeeded { action_id: 10 })));
}

#[test]
fn test_event_dispatch_matches_message_handling() {
    let mut worker = AccountWorker::new(game_config());
    worker.load_detection_patterns(
        0,
        vec![phase_row(1, "Join now", "join_time", 100)],
        vec![],
        vec![],
        "",
        vec![],
    );
    worker.reconnect_attempts = 2;

    let event = q_manager::telethon::TelethonEvent {
        kind: "message".to_string(),
        message: Some(message(
            7,
            -100,
            999,
            "Join now",
            vec![url_button("https://t.me/mod?start=GAME1")],
        )),
    };
    let effects = worker.handle_telethon_event(0, &event);
    // A message event clears the reconnect counter and is classified.
    assert_eq!(worker.reconnect_attempts, 0);
    assert!(effects
        .iter()
        .any(|e| matches!(e, WorkerEffect::PhaseDetected { .. })));
    assert_eq!(worker.join_attempts, 1);

    // Any other event kind only clears the counter.
    worker.reconnect_attempts = 3;
    let other = q_manager::telethon::TelethonEvent { kind: "typing".to_string(), message: None };
    let effects = worker.handle_telethon_event(1_000, &other);
    assert!(effects.is_empty());
    assert_eq!(worker.reconnect_attempts, 0);
}

#[test]
fn test_two_step_unclickable_button_warns() {
    let mut worker = AccountWorker::new(game_config());
    let cupid_config = ActionConfig {
        target_pairs: vec![("Alice".to_string(), "Bob".to_string())],
        blacklist: vec![],
        targets: vec![],
        delay_min: 0,
        delay_max: 0,
        button_type: "player_list".to_string(),
        random_fallback_enabled: false,
        is_two_step: true,
    };
    worker.load_detection_patterns(0, vec![], vec![], vec![], "", vec![(30, cupid_config)]);

    // The step-1 button carries no callback data and no link: the skip is
    // warned about, and the labelled emission still follows.
    let broken = TelethonButton {
        text: "Alice".to_string(),
        kind: "callback".to_string(),
        data: None,
        url: None,
    };
    let step1 = message(50, 777, 999, "first prompt", vec![broken]);
    worker.handle_action(0, 30, "cupid", 1, &step1);
    let step2 = message(51, 777, 999, "second prompt", vec![callback_button("Bob")]);
    let effects = worker.handle_action(0, 30, "cupid", 2, &step2);

    let dispatches = effects
        .iter()
        .filter(|e| matches!(e, WorkerEffect::Dispatch { .. }))
        .count();
    assert_eq!(dispatches, 1); // only the step-2 click forms
    assert!(effects.iter().any(|e| matches!(
        e,
        WorkerEffect::Log { level, .. } if level == "warn"
    )));
    let labels: Vec<_> = effects
        .iter()
        .filter_map(|e| match e {
            WorkerEffect::ActionDetected { action_name, .. } => Some(action_name.clone()),
            _ => None,
        })
        .collect();
    assert_eq!(labels, vec!["cupid (Step 1)".to_string(), "cupid (Step 2)".to_string()]);
}
