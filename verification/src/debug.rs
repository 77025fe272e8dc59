//! The debug messenger: what it listens to, and how a message that it
//! hands over is filed.

use vstd::prelude::*;

verus! {

/// How grave the validation layers hold a message to be.
#[derive(PartialEq, Eq, Structural, Debug, Clone, Copy)]
pub enum MessageSeverity {
    Verbose,
    Info,
    Warning,
    Error,
    /// Several severities at once, or one that is not known.
    Other,
}

/// What a message is about.
#[derive(PartialEq, Eq, Structural, Debug, Clone, Copy)]
pub enum MessageType {
    General,
    Performance,
    Validation,
    /// Several kinds at once, or one that is not known.
    Other,
}

/// The level at which a message is logged.
#[derive(PartialEq, Eq, Structural, Debug, Clone, Copy)]
pub enum LogLevel {
    Trace,
    Info,
    Warn,
    Error,
}

/// The messages that a debug messenger is to hand over.
#[derive(PartialEq, Eq, Structural, Debug, Clone, Copy)]
pub struct DebugMessengerCreateInfo {
    pub severity_error: bool,
    pub severity_warning: bool,
    pub severity_info: bool,
    pub severity_verbose: bool,
    pub type_general: bool,
    pub type_performance: bool,
    pub type_validation: bool,
}

/// A messenger that listens to everything.
pub open spec fn listen_to_all() -> DebugMessengerCreateInfo {
    DebugMessengerCreateInfo {
        severity_error: true,
        severity_warning: true,
        severity_info: true,
        severity_verbose: true,
        type_general: true,
        type_performance: true,
        type_validation: true,
    }
}

/// The log level of a message by its severity. What is not understood is
/// logged as an error.
pub open spec fn level_of(severity: MessageSeverity) -> LogLevel {
    match severity {
        MessageSeverity::Verbose => LogLevel::Trace,
        MessageSeverity::Info => LogLevel::Info,
        MessageSeverity::Warning => LogLevel::Warn,
        MessageSeverity::Error => LogLevel::Error,
        MessageSeverity::Other => LogLevel::Error,
    }
}

/// The created messenger.
#[derive(PartialEq, Eq, Structural, Debug, Clone, Copy)]
pub struct DebugMessenger {
    pub messenger: u64,
}

impl DebugMessenger {
    /// The messenger of the given handle.
    pub fn new(messenger: u64) -> (created: Self)
        ensures
            created.messenger == messenger,
    {
        DebugMessenger { messenger }
    }

    /// What the renderer's messenger listens to: every severity and every
    /// kind of message.
    pub fn get_create_info() -> (info: DebugMessengerCreateInfo)
        ensures
            info == listen_to_all(),
    {
        DebugMessengerCreateInfo {
            severity_error: true,
            severity_warning: true,
            severity_info: true,
            severity_verbose: true,
            type_general: true,
            type_performance: true,
            type_validation: true,
        }
    }
}

/// What the renderer's messenger listens to.
pub fn get_debug_messenger_create_info() -> (info: DebugMessengerCreateInfo)
    ensures
        info == listen_to_all(),
{
    DebugMessenger::get_create_info()
}

/// The word that a logged message starts with, by what it is about.
pub fn type_prefix(msg_type: MessageType) -> (prefix: &'static str)
    ensures
        prefix@ == (match msg_type {
            MessageType::General => "GENERAL"@,
            MessageType::Performance => "PERFORMANCE"@,
            MessageType::Validation => "VALIDATION"@,
            MessageType::Other => "UNKNOWN"@,
        }),
{
    match msg_type {
        MessageType::General => "GENERAL",
        MessageType::Performance => "PERFORMANCE",
        MessageType::Validation => "VALIDATION",
        MessageType::Other => "UNKNOWN",
    }
}

/// The level at which a message of the given severity is logged, and
/// whether the log line is to say that the severity was not understood.
pub fn message_level(severity: MessageSeverity) -> (filed: (LogLevel, bool))
    ensures
        filed.0 == level_of(severity),
        filed.1 == (severity == MessageSeverity::Other),
{
    match severity {
        MessageSeverity::Verbose => (LogLevel::Trace, false),
        MessageSeverity::Info => (LogLevel::Info, false),
        MessageSeverity::Warning => (LogLevel::Warn, false),
        MessageSeverity::Error => (LogLevel::Error, false),
        MessageSeverity::Other => (LogLevel::Error, true),
    }
}

} // verus!
