//! Tests of the error types, the log context, the startup-check results and
//! the arithmetic guards.

use q_manager::errors::ConfigError;
use q_manager::errors::DatabaseError;
use q_manager::errors::ErrorResponse;
use q_manager::errors::TelegramError;
use q_manager::errors::ValidationError;
use q_manager::errors::WorkerError;
use q_manager::logging::LogContext;
use q_manager::startup::StartupCheckError;
use q_manager::startup::StartupCheckResult;

#[test]
fn test_database_error_display() {
    let err = DatabaseError::NotFound {
        entity: "Account".to_string(),
        id: 42,
    };
    assert_eq!(err.message(), "Record not found: Account with id 42");

    let err = DatabaseError::Duplicate {
        entity: "Account".to_string(),
        field: "phone".to_string(),
        value: "+1234567890".to_string(),
    };
    assert!(err.message().contains("already exists"));

    let err = DatabaseError::ConnectionFailed("timeout".to_string());
    assert!(err.message().contains("Connection failed"));
}

#[test]
fn test_telegram_error_display() {
    let err = TelegramError::ApiError {
        code: 400,
        message: "Bad Request".to_string(),
    };
    assert!(err.message().contains("400"));
    assert!(err.message().contains("Bad Request"));

    let err = TelegramError::AuthFailed("Invalid code".to_string());
    assert!(err.message().contains("Authentication failed"));
}

#[test]
fn test_validation_error_display() {
    let err = ValidationError::Required {
        field: "phone".to_string(),
    };
    assert!(err.message().contains("phone"));

    let err = ValidationError::InvalidFormat {
        field: "email".to_string(),
        message: "missing @".to_string(),
    };
    assert!(err.message().contains("email"));
    assert!(err.message().contains("missing @"));
}

#[test]
fn test_worker_error_display() {
    let err = WorkerError::NotFound(42);
    assert!(err.message().contains("42"));

    let err = WorkerError::AlreadyRunning(42);
    assert!(err.message().contains("already running"));
}

#[test]
fn test_config_error_display() {
    let err = ConfigError::MissingSetting("api_id".to_string());
    assert!(err.message().contains("api_id"));

    let err = ConfigError::NoModeratorBot;
    assert!(err.message().contains("Moderator bot"));
}

#[test]
fn test_error_response_wrappers() {
    let response = ErrorResponse::from_database(&DatabaseError::ConnectionFailed(
        "test".to_string(),
    ));
    assert_eq!(response.code, "DATABASE_ERROR");
    assert!(!response.message.is_empty());

    let response = ErrorResponse::from_telegram(&TelegramError::Timeout("test".to_string()));
    assert_eq!(response.code, "TELEGRAM_ERROR");

    let response = ErrorResponse::from_validation(&ValidationError::Required {
        field: "test".to_string(),
    });
    assert_eq!(response.code, "VALIDATION_ERROR");

    let response = ErrorResponse::from_worker(&WorkerError::NotFound(1));
    assert_eq!(response.code, "WORKER_ERROR");

    let response = ErrorResponse::from_config(&ConfigError::NoApiCredentials);
    assert_eq!(response.code, "CONFIG_ERROR");

    let response = ErrorResponse::from_message("test error");
    assert_eq!(response.code, "ERROR");
    assert_eq!(response.message, "test error");
}

#[test]
fn test_log_context_format() {
    let ctx = LogContext::new("worker").with_account(42).with_operation("start");

    assert!(ctx.format_prefix().contains("worker"));
    assert!(ctx.format_prefix().contains("42"));
    assert!(ctx.format_prefix().contains("start"));
}

#[test]
fn test_log_context_minimal() {
    let ctx = LogContext::new("db");
    assert_eq!(ctx.format_prefix(), "db");
}

#[test]
fn test_log_context_lines() {
    let ctx = LogContext::new("worker").with_account(7);
    assert_eq!(ctx.info("started"), "[worker][account:7] started");
    assert_eq!(ctx.warn("careful"), "[worker][account:7] careful");
    assert_eq!(ctx.error("broken"), "[worker][account:7] broken");
    assert_eq!(ctx.debug("detail"), "[worker][account:7] detail");
}

#[test]
fn test_startup_check_result_merge() {
    let mut result1 = StartupCheckResult::success();
    result1.add_error(StartupCheckError::warning("WARN1", "Warning 1", None));

    let mut result2 = StartupCheckResult::success();
    result2.add_error(StartupCheckError::blocking("ERR1", "Error 1", None));

    result1.merge(result2);

    assert!(!result1.can_proceed);
    assert_eq!(result1.errors.len(), 2);
    assert!(result1.has_blocking_errors());
    assert!(result1.has_warnings());
}

#[test]
fn test_startup_check_error_creation() {
    let blocking = StartupCheckError::blocking("CODE", "Message", Some("Details"));
    assert!(blocking.is_blocking);
    assert!(blocking.details.is_some());

    let warning = StartupCheckError::warning("CODE", "Message", None);
    assert!(!warning.is_blocking);
    assert!(warning.details.is_none());
}

#[test]
fn test_integer_overflow_protection() {
    // Test that delays don't overflow
    let max_i32: i32 = i32::MAX;
    let result = max_i32.saturating_mul(1000);
    assert_eq!(result, i32::MAX); // Should saturate, not overflow

    // Test reasonable delay values
    let delay: i32 = 10;
    let result = delay.saturating_mul(1000);
    assert_eq!(result, 10000);
}

#[test]
fn test_remaining_error_variant_messages() {
    assert_eq!(
        DatabaseError::QueryFailed("syntax".to_string()).message(),
        "Query failed: syntax"
    );
    assert_eq!(
        DatabaseError::MigrationFailed("v2".to_string()).message(),
        "Migration failed: v2"
    );
    assert_eq!(DatabaseError::PoolError("busy".to_string()).message(), "Pool error: busy");

    assert_eq!(
        TelegramError::NotLoaded("missing".to_string()).message(),
        "Telethon worker not available: missing"
    );
    assert_eq!(
        TelegramError::SessionError("stale".to_string()).message(),
        "Session error: stale"
    );
    assert_eq!(
        TelegramError::ConnectionLost("reset".to_string()).message(),
        "Connection lost: reset"
    );
    assert_eq!(TelegramError::Timeout("15s".to_string()).message(), "Timeout: 15s");
    assert_eq!(
        TelegramError::InvalidRequest("shape".to_string()).message(),
        "Invalid request: shape"
    );

    assert_eq!(
        ValidationError::OutOfRange {
            field: "delay".to_string(),
            message: "too large".to_string()
        }
        .message(),
        "Value out of range for delay: too large"
    );
    assert_eq!(
        ValidationError::InvalidRegex("[bad".to_string()).message(),
        "Invalid regex pattern: [bad"
    );
    assert_eq!(
        ValidationError::Constraint("unique".to_string()).message(),
        "Constraint violation: unique"
    );

    assert_eq!(
        WorkerError::StartFailed("no session".to_string()).message(),
        "Worker start failed: no session"
    );
    assert_eq!(
        WorkerError::UnexpectedStop("crash".to_string()).message(),
        "Worker stopped unexpectedly: crash"
    );
    assert_eq!(
        WorkerError::DetectionFailed("regex".to_string()).message(),
        "Detection failed: regex"
    );
    assert_eq!(
        WorkerError::ActionFailed("click".to_string()).message(),
        "Action execution failed: click"
    );
    assert_eq!(
        WorkerError::ChannelError("closed".to_string()).message(),
        "Channel error: closed"
    );

    assert_eq!(
        ConfigError::InvalidValue {
            setting: "api_id".to_string(),
            message: "zero".to_string()
        }
        .message(),
        "Invalid setting value for api_id: zero"
    );
    assert_eq!(
        ConfigError::NoGroupSlots(-7).message(),
        "No group slots configured for account -7"
    );
    assert_eq!(
        ConfigError::NoApiCredentials.message(),
        "API credentials not configured"
    );
}
