use step_registry::wrapper::{
    arguments_exit, builtin, command_line, handler_exit, route, route_exit, settings_exit,
    CommandKind, Handler, EXIT_BAD_ARGUMENTS, EXIT_BAD_SETTINGS, EXIT_COMMAND_FAILED, EXIT_HELP,
    EXIT_UNKNOWN_COMMAND,
};

#[test]
fn exit_codes_are_the_documented_ones() {
    assert_eq!(EXIT_HELP, 0);
    assert_eq!(EXIT_BAD_ARGUMENTS, 122);
    assert_eq!(EXIT_COMMAND_FAILED, 124);
    assert_eq!(EXIT_BAD_SETTINGS, 126);
    assert_eq!(EXIT_UNKNOWN_COMMAND, 127);
}

#[test]
fn built_in_commands_have_their_handlers() {
    assert_eq!(builtin("_build_shell"), Some(Handler::BuildShell));
    assert_eq!(builtin("_check_overlayfs_support"), Some(Handler::CheckOverlayfs));
    assert_eq!(builtin("_build"), Some(Handler::Build));
    assert_eq!(builtin("_version_hash"), Some(Handler::VersionHash));
    assert_eq!(builtin("_run"), Some(Handler::Run));
    assert_eq!(builtin("_run_in_netns"), Some(Handler::Run));
    assert_eq!(builtin("_clean"), Some(Handler::Clean));
    assert_eq!(builtin("_pack_image"), Some(Handler::PackImage));
    assert_eq!(builtin("build"), None);
    assert_eq!(builtin("_Build"), None);
    assert_eq!(builtin(""), None);
}

#[test]
fn built_in_commands_come_before_configured_ones() {
    assert_eq!(route("_build", Some(CommandKind::Supervise)), Some(Handler::Build));
    assert_eq!(route("_run", None), Some(Handler::Run));
    assert_eq!(route("test", Some(CommandKind::Command)), Some(Handler::Commandline));
    assert_eq!(route("test", Some(CommandKind::CapsuleCommand)), Some(Handler::Capsule));
    assert_eq!(route("test", Some(CommandKind::Supervise)), Some(Handler::Supervise));
    assert_eq!(route("test", None), None);
}

#[test]
fn handler_gets_the_program_and_command_first() {
    assert_eq!(
        command_line("_build", vec!["ubuntu".to_string(), "--force".to_string()]),
        vec!["vagga _build".to_string(), "ubuntu".to_string(), "--force".to_string()]
    );
    assert_eq!(command_line("x", vec![]), vec!["vagga x".to_string()]);
}

#[test]
fn exit_after_reading_arguments() {
    assert_eq!(arguments_exit(Ok(())), None);
    assert_eq!(arguments_exit(Err(0)), Some(0));
    assert_eq!(arguments_exit(Err(2)), Some(122));
    assert_eq!(arguments_exit(Err(-1)), Some(122));
}

#[test]
fn exit_after_the_handler() {
    assert_eq!(handler_exit(Ok(0)), 0);
    assert_eq!(handler_exit(Ok(3)), 3);
    assert_eq!(handler_exit(Err("boom".to_string())), 124);
}

#[test]
fn exit_after_reading_settings() {
    assert_eq!(settings_exit(false), None);
    assert_eq!(settings_exit(true), Some(126));
}

#[test]
fn exit_after_choosing_the_handler() {
    assert_eq!(route_exit(None), Some(127));
    assert_eq!(route_exit(Some(Handler::Build)), None);
    assert_eq!(route_exit(Some(Handler::Supervise)), None);
    assert_eq!(route_exit(route("_clean", None)), None);
    assert_eq!(route_exit(route("nothing", None)), Some(127));
}
