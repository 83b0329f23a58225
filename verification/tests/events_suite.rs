//! Tests of the observer event builders.

use q_manager::events::emit_account_status;
use q_manager::events::emit_action_detected;
use q_manager::events::emit_join_attempt;
use q_manager::events::emit_log;
use q_manager::events::emit_phase_detected;
use q_manager::events::emit_regex_validation;

#[test]
fn test_event_builders_carry_their_fields() {
    let status = emit_account_status(1, "starting", Some("booting".to_string()));
    assert_eq!(status.account_id, 1);
    assert_eq!(status.status, "starting");
    assert_eq!(status.message.as_deref(), Some("booting"));

    let phase = emit_phase_detected(1, "alpha", "join_time", "t0".to_string());
    assert_eq!(phase.account_name, "alpha");
    assert_eq!(phase.phase_name, "join_time");
    assert_eq!(phase.timestamp, "t0");

    let action = emit_action_detected(1, "alpha", "vote", Some("Alice".to_string()), "t1".to_string());
    assert_eq!(action.action_name, "vote");
    assert_eq!(action.button_clicked.as_deref(), Some("Alice"));

    let join = emit_join_attempt(1, "alpha", 2, 5, false, "t2".to_string());
    assert_eq!(join.attempt, 2);
    assert_eq!(join.max_attempts, 5);
    assert!(!join.success);

    let log = emit_log(1, "alpha", "warn", "careful", "t3".to_string());
    assert_eq!(log.level, "warn");
    assert_eq!(log.message, "careful");

    let regex = emit_regex_validation("phase", "[bad", "unclosed");
    assert_eq!(regex.scope, "phase");
    assert_eq!(regex.pattern, "[bad");
    assert_eq!(regex.error, "unclosed");
}
