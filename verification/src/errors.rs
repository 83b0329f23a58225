//! Structured error types, each with a rendered message whose exact text is
//! part of its contract.

use vstd::prelude::*;
use vstd::string::StringExecFns;
use crate::text::i64_to_string;
use crate::text::spec_dec_i64;

verus! {

/// Errors of the configuration store.
#[derive(Debug)]
pub enum DatabaseError {
    ConnectionFailed(String),
    QueryFailed(String),
    NotFound { entity: String, id: i64 },
    Duplicate { entity: String, field: String, value: String },
    MigrationFailed(String),
    PoolError(String),
}

impl DatabaseError {
    /// The rendered message.
    pub open spec fn spec_message(self) -> Seq<char> {
        match self {
            DatabaseError::ConnectionFailed(s) => "Connection failed: "@ + s@,
            DatabaseError::QueryFailed(s) => "Query failed: "@ + s@,
            DatabaseError::NotFound { entity, id } => "Record not found: "@ + entity@
                + " with id "@ + spec_dec_i64(id as int),
            DatabaseError::Duplicate { entity, field, value } => "Duplicate record: "@ + entity@
                + " with "@ + field@ + "='"@ + value@ + "' already exists"@,
            DatabaseError::MigrationFailed(s) => "Migration failed: "@ + s@,
            DatabaseError::PoolError(s) => "Pool error: "@ + s@,
        }
    }

    /// Render the message.
    pub fn message(&self) -> (r: String)
        ensures
            r@ == self.spec_message(),
    {
        match self {
            DatabaseError::ConnectionFailed(s) => String::from_str("Connection failed: ").concat(
                s.as_str(),
            ),
            DatabaseError::QueryFailed(s) => String::from_str("Query failed: ").concat(s.as_str()),
            DatabaseError::NotFound { entity, id } => {
                let r = String::from_str("Record not found: ").concat(entity.as_str()).concat(
                    " with id ",
                ).concat(i64_to_string(*id).as_str());
                proof {
                    assert(r@ =~= self.spec_message());
                }
                r
            },
            DatabaseError::Duplicate { entity, field, value } => {
                let r = String::from_str("Duplicate record: ").concat(entity.as_str()).concat(
                    " with ",
                ).concat(field.as_str()).concat("='").concat(value.as_str()).concat(
                    "' already exists",
                );
                proof {
                    assert(r@ =~= self.spec_message());
                }
                r
            },
            DatabaseError::MigrationFailed(s) => String::from_str("Migration failed: ").concat(
                s.as_str(),
            ),
            DatabaseError::PoolError(s) => String::from_str("Pool error: ").concat(s.as_str()),
        }
    }
}

/// Errors of the remote messaging client.
#[derive(Debug)]
pub enum TelegramError {
    NotLoaded(String),
    AuthFailed(String),
    SessionError(String),
    ApiError { code: i32, message: String },
    ConnectionLost(String),
    Timeout(String),
    InvalidRequest(String),
}

impl TelegramError {
    /// The rendered message.
    pub open spec fn spec_message(self) -> Seq<char> {
        match self {
            TelegramError::NotLoaded(s) => "Telethon worker not available: "@ + s@,
            TelegramError::AuthFailed(s) => "Authentication failed: "@ + s@,
            TelegramError::SessionError(s) => "Session error: "@ + s@,
            TelegramError::ApiError { code, message } => "API error ["@ + spec_dec_i64(code as int)
                + "]: "@ + message@,
            TelegramError::ConnectionLost(s) => "Connection lost: "@ + s@,
            TelegramError::Timeout(s) => "Timeout: "@ + s@,
            TelegramError::InvalidRequest(s) => "Invalid request: "@ + s@,
        }
    }

    /// Render the message.
    pub fn message(&self) -> (r: String)
        ensures
            r@ == self.spec_message(),
    {
        match self {
            TelegramError::NotLoaded(s) => String::from_str(
                "Telethon worker not available: ",
            ).concat(s.as_str()),
            TelegramError::AuthFailed(s) => String::from_str("Authentication failed: ").concat(
                s.as_str(),
            ),
            TelegramError::SessionError(s) => String::from_str("Session error: ").concat(
                s.as_str(),
            ),
            TelegramError::ApiError { code, message } => {
                let r = String::from_str("API error [").concat(
                    i64_to_string(*code as i64).as_str(),
                ).concat("]: ").concat(message.as_str());
                proof {
                    assert(r@ =~= self.spec_message());
                }
                r
            },
            TelegramError::ConnectionLost(s) => String::from_str("Connection lost: ").concat(
                s.as_str(),
            ),
            TelegramError::Timeout(s) => String::from_str("Timeout: ").concat(s.as_str()),
            TelegramError::InvalidRequest(s) => String::from_str("Invalid request: ").concat(
                s.as_str(),
            ),
        }
    }
}

/// Errors of input validation, in their categorised form.
#[derive(Debug)]
pub enum ValidationError {
    Required { field: String },
    InvalidFormat { field: String, message: String },
    OutOfRange { field: String, message: String },
    InvalidRegex(String),
    Constraint(String),
}

impl ValidationError {
    /// The rendered message.
    pub open spec fn spec_message(self) -> Seq<char> {
        match self {
            ValidationError::Required { field } => "Required field missing: "@ + field@,
            ValidationError::InvalidFormat { field, message } => "Invalid format for "@ + field@
                + ": "@ + message@,
            ValidationError::OutOfRange { field, message } => "Value out of range for "@ + field@
                + ": "@ + message@,
            ValidationError::InvalidRegex(s) => "Invalid regex pattern: "@ + s@,
            ValidationError::Constraint(s) => "Constraint violation: "@ + s@,
        }
    }

    /// Render the message.
    pub fn message(&self) -> (r: String)
        ensures
            r@ == self.spec_message(),
    {
        match self {
            ValidationError::Required { field } => String::from_str(
                "Required field missing: ",
            ).concat(field.as_str()),
            ValidationError::InvalidFormat { field, message } => {
                let r = String::from_str("Invalid format for ").concat(field.as_str()).concat(
                    ": ",
                ).concat(message.as_str());
                proof {
                    assert(r@ =~= self.spec_message());
                }
                r
            },
            ValidationError::OutOfRange { field, message } => {
                let r = String::from_str("Value out of range for ").concat(field.as_str()).concat(
                    ": ",
                ).concat(message.as_str());
                proof {
                    assert(r@ =~= self.spec_message());
                }
                r
            },
            ValidationError::InvalidRegex(s) => String::from_str("Invalid regex pattern: ").concat(
                s.as_str(),
            ),
            ValidationError::Constraint(s) => String::from_str("Constraint violation: ").concat(
                s.as_str(),
            ),
        }
    }
}

/// Errors of the automation workers.
#[derive(Debug)]
pub enum WorkerError {
    NotFound(i64),
    AlreadyRunning(i64),
    StartFailed(String),
    UnexpectedStop(String),
    DetectionFailed(String),
    ActionFailed(String),
    ChannelError(String),
}

impl WorkerError {
    /// The rendered message.
    pub open spec fn spec_message(self) -> Seq<char> {
        match self {
            WorkerError::NotFound(id) => "Worker not found for account "@ + spec_dec_i64(id as int),
            WorkerError::AlreadyRunning(id) => "Worker already running for account "@
                + spec_dec_i64(id as int),
            WorkerError::StartFailed(s) => "Worker start failed: "@ + s@,
            WorkerError::UnexpectedStop(s) => "Worker stopped unexpectedly: "@ + s@,
            WorkerError::DetectionFailed(s) => "Detection failed: "@ + s@,
            WorkerError::ActionFailed(s) => "Action execution failed: "@ + s@,
            WorkerError::ChannelError(s) => "Channel error: "@ + s@,
        }
    }

    /// Render the message.
    pub fn message(&self) -> (r: String)
        ensures
            r@ == self.spec_message(),
    {
        match self {
            WorkerError::NotFound(id) => String::from_str("Worker not found for account ").concat(
                i64_to_string(*id).as_str(),
            ),
            WorkerError::AlreadyRunning(id) => String::from_str(
                "Worker already running for account ",
            ).concat(i64_to_string(*id).as_str()),
            WorkerError::StartFailed(s) => String::from_str("Worker start failed: ").concat(
                s.as_str(),
            ),
            WorkerError::UnexpectedStop(s) => String::from_str(
                "Worker stopped unexpectedly: ",
            ).concat(s.as_str()),
            WorkerError::DetectionFailed(s) => String::from_str("Detection failed: ").concat(
                s.as_str(),
            ),
            WorkerError::ActionFailed(s) => String::from_str("Action execution failed: ").concat(
                s.as_str(),
            ),
            WorkerError::ChannelError(s) => String::from_str("Channel error: ").concat(s.as_str()),
        }
    }
}

/// Errors of missing or inconsistent configuration.
#[derive(Debug)]
pub enum ConfigError {
    MissingSetting(String),
    InvalidValue { setting: String, message: String },
    NoModeratorBot,
    NoGroupSlots(i64),
    NoApiCredentials,
}

impl ConfigError {
    /// The rendered message.
    pub open spec fn spec_message(self) -> Seq<char> {
        match self {
            ConfigError::MissingSetting(s) => "Missing required setting: "@ + s@,
            ConfigError::InvalidValue { setting, message } => "Invalid setting value for "@
                + setting@ + ": "@ + message@,
            ConfigError::NoModeratorBot => "Moderator bot not configured"@,
            ConfigError::NoGroupSlots(id) => "No group slots configured for account "@
                + spec_dec_i64(id as int),
            ConfigError::NoApiCredentials => "API credentials not configured"@,
        }
    }

    /// Render the message.
    pub fn message(&self) -> (r: String)
        ensures
            r@ == self.spec_message(),
    {
        match self {
            ConfigError::MissingSetting(s) => String::from_str(
                "Missing required setting: ",
            ).concat(s.as_str()),
            ConfigError::InvalidValue { setting, message } => {
                let r = String::from_str("Invalid setting value for ").concat(
                    setting.as_str(),
                ).concat(": ").concat(message.as_str());
                proof {
                    assert(r@ =~= self.spec_message());
                }
                r
            },
            ConfigError::NoModeratorBot => String::from_str("Moderator bot not configured"),
            ConfigError::NoGroupSlots(id) => String::from_str(
                "No group slots configured for account ",
            ).concat(i64_to_string(*id).as_str()),
            ConfigError::NoApiCredentials => String::from_str("API credentials not configured"),
        }
    }
}

/// A serialisable error for observers: a stable code and the rendered
/// message.
#[derive(Debug)]
pub struct ErrorResponse {
    pub code: String,
    pub message: String,
    pub details: Option<String>,
}

impl ErrorResponse {
    /// Wrap a store error under the code DATABASE_ERROR.
    pub fn from_database(err: &DatabaseError) -> (r: ErrorResponse)
        ensures
            r.code@ == "DATABASE_ERROR"@,
            r.message@ == err.spec_message(),
            r.details is None,
    {
        ErrorResponse {
            code: String::from_str("DATABASE_ERROR"),
            message: err.message(),
            details: None,
        }
    }

    /// Wrap a client error under the code TELEGRAM_ERROR.
    pub fn from_telegram(err: &TelegramError) -> (r: ErrorResponse)
        ensures
            r.code@ == "TELEGRAM_ERROR"@,
            r.message@ == err.spec_message(),
            r.details is None,
    {
        ErrorResponse {
            code: String::from_str("TELEGRAM_ERROR"),
            message: err.message(),
            details: None,
        }
    }

    /// Wrap a validation error under the code VALIDATION_ERROR.
    pub fn from_validation(err: &ValidationError) -> (r: ErrorResponse)
        ensures
            r.code@ == "VALIDATION_ERROR"@,
            r.message@ == err.spec_message(),
            r.details is None,
    {
        ErrorResponse {
            code: String::from_str("VALIDATION_ERROR"),
            message: err.message(),
            details: None,
        }
    }

    /// Wrap a worker error under the code WORKER_ERROR.
    pub fn from_worker(err: &WorkerError) -> (r: ErrorResponse)
        ensures
            r.code@ == "WORKER_ERROR"@,
            r.message@ == err.spec_message(),
            r.details is None,
    {
        ErrorResponse {
            code: String::from_str("WORKER_ERROR"),
            message: err.message(),
            details: None,
        }
    }

    /// Wrap a configuration error under the code CONFIG_ERROR.
    pub fn from_config(err: &ConfigError) -> (r: ErrorResponse)
        ensures
            r.code@ == "CONFIG_ERROR"@,
            r.message@ == err.spec_message(),
            r.details is None,
    {
        ErrorResponse {
            code: String::from_str("CONFIG_ERROR"),
            message: err.message(),
            details: None,
        }
    }

    /// Wrap a plain message under the generic code ERROR.
    pub fn from_message(message: &str) -> (r: ErrorResponse)
        ensures
            r.code@ == "ERROR"@,
            r.message@ == message@,
            r.details is None,
    {
        ErrorResponse {
            code: String::from_str("ERROR"),
            message: String::from_str(message),
            details: None,
        }
    }
}

} // verus!
