//! A supervisor for long-lived chat-game automation workers: a verified
//! library of the detection pipeline that classifies incoming messages, the
//! per-account worker state machine that joins games and clicks buttons,
//! the supervisor registry, the configuration caches and validators, and
//! the wire model of the subprocess client.

pub mod cache;
pub mod config;
pub mod constants;
pub mod debounce;
pub mod detection;
pub mod dto;
pub mod errors;
pub mod events;
pub mod json;
pub mod logging;
pub mod selection;
pub mod sorting;
pub mod startup;
pub mod supervisor;
pub mod telethon;
pub mod text;
pub mod validation;
pub mod worker;
