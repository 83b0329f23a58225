//! Tests of the detection pipeline: matching, ordering, and determinism.

use q_manager::config::Action;
use q_manager::config::ActionPattern;
use q_manager::config::PhasePattern;
use q_manager::detection::DetectionPipeline;
use q_manager::detection::DetectionResult;
use q_manager::detection::MessageEvent;
use regex::Regex;

fn phase_row(id: i64, pattern: &str, is_regex: bool, priority: i32, phase_name: &str, phase_priority: i32) -> (PhasePattern, String, i32) {
    (
        PhasePattern {
            id,
            phase_id: id,
            pattern: pattern.to_string(),
            is_regex,
            enabled: true,
            priority,
        },
        phase_name.to_string(),
        phase_priority,
    )
}

fn action_pattern(id: i64, action_id: i64, pattern: &str, priority: i32, step: i32) -> ActionPattern {
    ActionPattern {
        id,
        action_id,
        pattern: pattern.to_string(),
        is_regex: false,
        enabled: true,
        priority,
        step,
    }
}

fn event(text: &str) -> MessageEvent {
    MessageEvent {
        text: text.to_string(),
        chat_id: -100,
        is_private: false,
        sender_id: 999,
        buttons: Vec::new(),
    }
}

#[test]
fn test_substring_match() {
    let pipeline = DetectionPipeline::new();
    assert!(pipeline.matches_text("Hello world", "world", false));
    assert!(!pipeline.matches_text("Hello world", "foo", false));
}

#[test]
fn test_regex_match() {
    let pipeline = DetectionPipeline::new();
    assert!(pipeline.matches_text("Hello 123 world", r"\d+", true));
    assert!(!pipeline.matches_text("Hello world", r"\d+", true));
}

#[test]
fn test_invalid_regex_never_matches() {
    let pipeline = DetectionPipeline::new();
    assert!(!pipeline.matches_text("anything [at all", "[invalid", true));
}

#[test]
fn test_first_phase_wins() {
    let mut pipeline = DetectionPipeline::new();
    pipeline.load_phase_patterns(vec![
        phase_row(1, "game", false, 10, "game_start", 50),
        phase_row(2, "game over", false, 90, "game_end", 80),
    ]);
    // The game_end pattern sorts first by phase priority and wins.
    let results = pipeline.process(&event("the game over screen"));
    assert_eq!(results.len(), 1);
    match &results[0] {
        DetectionResult::Phase { phase_name, priority, .. } => {
            assert_eq!(phase_name, "game_end");
            assert_eq!(*priority, 80 * 1000 + 90);
        }
        _ => panic!("expected a phase result"),
    }
}

#[test]
fn test_disabled_patterns_are_skipped() {
    let mut pipeline = DetectionPipeline::new();
    let mut disabled = phase_row(1, "Join", false, 100, "join_time", 100);
    disabled.0.enabled = false;
    pipeline.load_phase_patterns(vec![disabled]);
    assert_eq!(pipeline.phase_pattern_count(), 0);
    assert!(pipeline.process(&event("Join now")).is_empty());
}

#[test]
fn test_action_matches_collect_in_priority_order() {
    let mut pipeline = DetectionPipeline::new();
    let actions = vec![
        Action {
            id: 1,
            name: "vote".to_string(),
            button_type: "player_list".to_string(),
            random_fallback_enabled: true,
            is_two_step: false,
        },
        Action {
            id: 2,
            name: "eat".to_string(),
            button_type: "player_list".to_string(),
            random_fallback_enabled: true,
            is_two_step: false,
        },
    ];
    pipeline.load_action_patterns(
        actions,
        vec![
            action_pattern(10, 1, "night", 5, 1),
            action_pattern(11, 2, "night falls", 9, 1),
        ],
    );
    assert_eq!(pipeline.action_pattern_count(), 2);
    let results = pipeline.process(&event("night falls on the town"));
    assert_eq!(results.len(), 2);
    match &results[0] {
        DetectionResult::Action { action_name, priority, .. } => {
            assert_eq!(action_name, "eat");
            assert_eq!(*priority, 9);
        }
        _ => panic!("expected an action result"),
    }
    match &results[1] {
        DetectionResult::Action { action_name, priority, .. } => {
            assert_eq!(action_name, "vote");
            assert_eq!(*priority, 5);
        }
        _ => panic!("expected an action result"),
    }
}

#[test]
fn test_pattern_without_action_is_dropped() {
    let mut pipeline = DetectionPipeline::new();
    pipeline.load_action_patterns(Vec::new(), vec![action_pattern(10, 1, "night", 5, 1)]);
    assert_eq!(pipeline.action_pattern_count(), 0);
}

#[test]
fn test_combined_output_sorted_by_priority() {
    let mut pipeline = DetectionPipeline::new();
    pipeline.load_phase_patterns(vec![phase_row(1, "dawn", false, 2, "game_start", 0)]);
    pipeline.load_action_patterns(
        vec![Action {
            id: 1,
            name: "vote".to_string(),
            button_type: "player_list".to_string(),
            random_fallback_enabled: true,
            is_two_step: false,
        }],
        vec![
            action_pattern(10, 1, "dawn", 7, 1),
            action_pattern(11, 1, "dawn breaks", 1, 1),
        ],
    );
    let results = pipeline.process(&event("dawn breaks"));
    // Action at priority 7, then the phase at 0*1000+2, then action at 1.
    assert_eq!(results.len(), 3);
    match &results[0] {
        DetectionResult::Action { priority, .. } => assert_eq!(*priority, 7),
        _ => panic!("expected the high-priority action first"),
    }
    match &results[1] {
        DetectionResult::Phase { priority, .. } => assert_eq!(*priority, 2),
        _ => panic!("expected the phase next"),
    }
    match &results[2] {
        DetectionResult::Action { priority, .. } => assert_eq!(*priority, 1),
        _ => panic!("expected the low-priority action last"),
    }
}

#[test]
fn test_process_deterministic() {
    let mut pipeline = DetectionPipeline::new();
    pipeline.load_phase_patterns(vec![
        phase_row(1, "Join now", false, 100, "join_time", 100),
        phase_row(2, r"game\s+over", true, 50, "game_end", 90),
    ]);
    pipeline.load_action_patterns(
        vec![Action {
            id: 1,
            name: "vote".to_string(),
            button_type: "player_list".to_string(),
            random_fallback_enabled: true,
            is_two_step: false,
        }],
        vec![action_pattern(10, 1, "vote", 5, 1)],
    );
    let message = event("Join now and vote before the game  over screen");
    let first = pipeline.process(&message);
    let second = pipeline.process(&message);
    assert_eq!(first, second);
}

#[test]
fn test_reload_same_config_same_output() {
    let load = |pipeline: &mut DetectionPipeline| {
        pipeline.load_phase_patterns(vec![phase_row(1, "Join", false, 3, "join_time", 10)]);
        pipeline.load_action_patterns(
            vec![Action {
                id: 1,
                name: "vote".to_string(),
                button_type: "player_list".to_string(),
                random_fallback_enabled: true,
                is_two_step: false,
            }],
            vec![action_pattern(10, 1, "vote", 5, 1)],
        );
    };
    let mut first = DetectionPipeline::new();
    load(&mut first);
    let mut second = DetectionPipeline::new();
    load(&mut second);
    // Reloading the second pipeline again changes nothing.
    load(&mut second);
    let message = event("Join and vote");
    assert_eq!(first.process(&message), second.process(&message));
}

#[test]
fn test_regex_pattern_compilation() {
    let pattern = r"(?i)join.*game";
    let regex = Regex::new(pattern);

    assert!(regex.is_ok());

    let compiled = regex.unwrap();
    assert!(compiled.is_match("Join the game now"));
    assert!(compiled.is_match("JOIN THE GAME"));
    assert!(!compiled.is_match("Start playing"));
}

#[test]
fn test_phase_precedes_equal_priority_action() {
    let mut pipeline = DetectionPipeline::new();
    // Combined phase key 0*1000+7 equals the action's priority 7.
    pipeline.load_phase_patterns(vec![phase_row(1, "dusk", false, 7, "game_start", 0)]);
    pipeline.load_action_patterns(
        vec![Action {
            id: 1,
            name: "vote".to_string(),
            button_type: "player_list".to_string(),
            random_fallback_enabled: true,
            is_two_step: false,
        }],
        vec![action_pattern(10, 1, "dusk", 7, 1)],
    );
    let results = pipeline.process(&event("dusk settles"));
    assert_eq!(results.len(), 2);
    // On a priority tie the phase result keeps its insertion-order lead.
    assert!(matches!(results[0], DetectionResult::Phase { .. }));
    assert!(matches!(results[1], DetectionResult::Action { .. }));
}
