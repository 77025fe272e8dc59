use opencubes::debug::{
    get_debug_messenger_create_info, message_level, type_prefix, DebugMessenger,
    DebugMessengerCreateInfo, LogLevel, MessageSeverity, MessageType,
};

#[test]
fn the_messenger_listens_to_everything() {
    let all = DebugMessengerCreateInfo {
        severity_error: true,
        severity_warning: true,
        severity_info: true,
        severity_verbose: true,
        type_general: true,
        type_performance: true,
        type_validation: true,
    };
    assert_eq!(DebugMessenger::get_create_info(), all);
    assert_eq!(get_debug_messenger_create_info(), all);
}

#[test]
fn the_messenger_keeps_its_handle() {
    assert_eq!(DebugMessenger::new(12).messenger, 12);
}

#[test]
fn messages_start_with_their_kind() {
    assert_eq!(type_prefix(MessageType::General), "GENERAL");
    assert_eq!(type_prefix(MessageType::Performance), "PERFORMANCE");
    assert_eq!(type_prefix(MessageType::Validation), "VALIDATION");
    assert_eq!(type_prefix(MessageType::Other), "UNKNOWN");
}

#[test]
fn messages_are_logged_by_their_severity() {
    assert_eq!(message_level(MessageSeverity::Verbose), (LogLevel::Trace, false));
    assert_eq!(message_level(MessageSeverity::Info), (LogLevel::Info, false));
    assert_eq!(message_level(MessageSeverity::Warning), (LogLevel::Warn, false));
    assert_eq!(message_level(MessageSeverity::Error), (LogLevel::Error, false));
    assert_eq!(message_level(MessageSeverity::Other), (LogLevel::Error, true));
}
