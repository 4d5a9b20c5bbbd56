use vstd::prelude::*;
use vstd::string::*;
use crate::text::same_text;

verus! {

/// The exit code of a run that did nothing but show help.
pub const EXIT_HELP: i32 = 0;

/// The exit code for arguments that cannot be read.
pub const EXIT_BAD_ARGUMENTS: i32 = 122;

/// The exit code for a command that fails.
pub const EXIT_COMMAND_FAILED: i32 = 124;

/// The exit code for settings that cannot be read.
pub const EXIT_BAD_SETTINGS: i32 = 126;

/// The exit code for a command that nothing knows.
pub const EXIT_UNKNOWN_COMMAND: i32 = 127;

/// What a command of the project's configuration is.
#[derive(Clone, Copy, Debug, PartialEq, Eq, Structural)]
pub enum CommandKind {
    /// A command run in a container.
    Command,
    /// A command run in a capsule.
    CapsuleCommand,
    /// A set of processes run under supervision.
    Supervise,
}

/// The handlers among which a command name chooses.
#[derive(Clone, Copy, Debug, PartialEq, Eq, Structural)]
pub enum Handler {
    BuildShell,
    CheckOverlayfs,
    Build,
    VersionHash,
    Run,
    Clean,
    PackImage,
    Commandline,
    Capsule,
    Supervise,
}

/// The handler of a built-in command, where `cmd` names one.
pub open spec fn builtin_handler(cmd: Seq<char>) -> Option<Handler> {
    if cmd == "_build_shell"@ {
        Some(Handler::BuildShell)
    } else if cmd == "_check_overlayfs_support"@ {
        Some(Handler::CheckOverlayfs)
    } else if cmd == "_build"@ {
        Some(Handler::Build)
    } else if cmd == "_version_hash"@ {
        Some(Handler::VersionHash)
    } else if cmd == "_run"@ || cmd == "_run_in_netns"@ {
        Some(Handler::Run)
    } else if cmd == "_clean"@ {
        Some(Handler::Clean)
    } else if cmd == "_pack_image"@ {
        Some(Handler::PackImage)
    } else {
        None
    }
}

/// The handler of a command: that of the built-in command of this name,
/// else that of the kind which the project's configuration gives the
/// name, else none.
pub open spec fn handler_of(cmd: Seq<char>, configured: Option<CommandKind>) -> Option<Handler> {
    match builtin_handler(cmd) {
        Some(handler) => Some(handler),
        None => match configured {
            Some(CommandKind::Command) => Some(Handler::Commandline),
            Some(CommandKind::CapsuleCommand) => Some(Handler::Capsule),
            Some(CommandKind::Supervise) => Some(Handler::Supervise),
            None => None,
        },
    }
}

/// The handler of a built-in command, where `cmd` names one.
pub fn builtin(cmd: &str) -> (handler: Option<Handler>)
    ensures
        handler == builtin_handler(cmd@),
{
    if same_text(cmd, "_build_shell") {
        Some(Handler::BuildShell)
    } else if same_text(cmd, "_check_overlayfs_support") {
        Some(Handler::CheckOverlayfs)
    } else if same_text(cmd, "_build") {
        Some(Handler::Build)
    } else if same_text(cmd, "_version_hash") {
        Some(Handler::VersionHash)
    } else if same_text(cmd, "_run") || same_text(cmd, "_run_in_netns") {
        Some(Handler::Run)
    } else if same_text(cmd, "_clean") {
        Some(Handler::Clean)
    } else if same_text(cmd, "_pack_image") {
        Some(Handler::PackImage)
    } else {
        None
    }
}

/// Chooses the handler of a command. `configured` is what the project's
/// configuration holds under the command's name.
pub fn route(cmd: &str, configured: Option<CommandKind>) -> (handler: Option<Handler>)
    ensures
        handler == handler_of(cmd@, configured),
{
    match builtin(cmd) {
        Some(handler) => Some(handler),
        None => match configured {
            Some(CommandKind::Command) => Some(Handler::Commandline),
            Some(CommandKind::CapsuleCommand) => Some(Handler::Capsule),
            Some(CommandKind::Supervise) => Some(Handler::Supervise),
            None => None,
        },
    }
}

/// The arguments that a handler gets: the program's name with the
/// command's, then the command's own arguments.
pub open spec fn handler_arguments(cmd: Seq<char>, args: Seq<Seq<char>>) -> Seq<Seq<char>> {
    seq!["vagga "@ + cmd] + args
}

/// Puts the program's name with the command's in front of the command's
/// arguments.
pub fn command_line(cmd: &str, args: Vec<String>) -> (line: Vec<String>)
    ensures
        crate::text::strings(line@) == handler_arguments(cmd@, crate::text::strings(args@)),
{
    let mut first = String::from_str("vagga ");
    first.append(cmd);
    let mut line = args;
    line.insert(0, first);
    proof {
        assert(crate::text::strings(line@) =~= handler_arguments(
            cmd@,
            crate::text::strings(args@),
        ));
    }
    line
}

/// The exit code after the arguments were read: none where they were
/// read and the run goes on, that of help where reading ended with 0,
/// that of bad arguments otherwise.
pub fn arguments_exit(read: Result<(), i32>) -> (code: Option<i32>)
    ensures
        code == match read {
            Ok(_) => None,
            Err(status) => if status == 0 {
                Some(EXIT_HELP)
            } else {
                Some(EXIT_BAD_ARGUMENTS)
            },
        },
{
    match read {
        Ok(_) => None,
        Err(0) => Some(EXIT_HELP),
        Err(_) => Some(EXIT_BAD_ARGUMENTS),
    }
}

/// The exit code after the settings were read: none where they were read
/// and the run goes on, that of bad settings where reading them failed.
pub fn settings_exit(failed: bool) -> (code: Option<i32>)
    ensures
        code == if failed {
            Some(EXIT_BAD_SETTINGS)
        } else {
            None
        },
{
    if failed {
        Some(EXIT_BAD_SETTINGS)
    } else {
        None
    }
}

/// The exit code after the handler was chosen: none where there is one
/// and the run goes on, that of an unknown command where there is none.
pub fn route_exit(handler: Option<Handler>) -> (code: Option<i32>)
    ensures
        code == match handler {
            Some(_) => None,
            None => Some(EXIT_UNKNOWN_COMMAND),
        },
{
    match handler {
        Some(_) => None,
        None => Some(EXIT_UNKNOWN_COMMAND),
    }
}

/// The exit code of a run whose handler ended: the handler's own code,
/// or that of a failed command.
pub fn handler_exit(ended: Result<i32, String>) -> (code: i32)
    ensures
        code == match ended {
            Ok(status) => status,
            Err(_) => EXIT_COMMAND_FAILED,
        },
{
    match ended {
        Ok(status) => status,
        Err(_) => EXIT_COMMAND_FAILED,
    }
}

} // verus!
