//! Power control: what is run to halt or restart the machine, and how the
//! outcome is reported.

use vstd::prelude::*;
use vstd::string::StringExecFns;
use crate::command::{failure_view, success_view, CommandResult, CommandResultView, Payload, PayloadView, ToolCommand, ToolCommandView, ToolOutcome};
use crate::text::text_views;

verus! {

/// What is asked of the power control.
#[derive(Debug, Clone, Copy, PartialEq, Eq, Structural)]
pub enum PowerAction {
    Shutdown,
    Reboot,
}

/// The program that carries out `action`.
pub open spec fn power_program(action: PowerAction) -> Seq<char> {
    match action {
        PowerAction::Shutdown => "shutdown"@,
        PowerAction::Reboot => "reboot"@,
    }
}

/// Its arguments: a shutdown halts at once, a reboot takes none.
pub open spec fn power_args(action: PowerAction) -> Seq<Seq<char>> {
    match action {
        PowerAction::Shutdown => seq!["-h"@, "now"@],
        PowerAction::Reboot => Seq::empty(),
    }
}

/// The message while `action` is under way.
pub open spec fn under_way_message(action: PowerAction) -> Seq<char> {
    match action {
        PowerAction::Shutdown => "关机中..."@,
        PowerAction::Reboot => "重启中..."@,
    }
}

/// What goes before the tool's own words when it exited with an error.
pub open spec fn exit_message_head(action: PowerAction) -> Seq<char> {
    match action {
        PowerAction::Shutdown => "shutdown命令异常退出，错误信息：\n"@,
        PowerAction::Reboot => "reboot命令异常退出，错误信息：\n"@,
    }
}

/// The message when the tool could not be started.
pub open spec fn launch_message(action: PowerAction) -> Seq<char> {
    match action {
        PowerAction::Shutdown => "shutdown命令执行失败"@,
        PowerAction::Reboot => "reboot命令执行失败"@,
    }
}

/// The reply to a request for `action` whose tool ended in `outcome`: a
/// success only where the tool exited without error; otherwise a failure,
/// which quotes what the tool wrote to standard error where it ran.
pub open spec fn power_reply_view(action: PowerAction, outcome: ToolOutcome) -> CommandResultView {
    match outcome {
        ToolOutcome::LaunchFailed => failure_view(launch_message(action)),
        ToolOutcome::Exited { success, stdout, stderr } => if success {
            success_view(under_way_message(action), PayloadView::Nothing)
        } else {
            failure_view(exit_message_head(action) + stderr@)
        },
    }
}

/// The command that carries out `action`.
pub fn power_command(action: PowerAction) -> (r: ToolCommand)
    ensures
        r@ == (ToolCommandView { program: power_program(action), args: power_args(action) }),
{
    let mut args: Vec<String> = Vec::new();
    match action {
        PowerAction::Shutdown => {
            args.push(String::from_str("-h"));
            args.push(String::from_str("now"));
            assert(text_views(args@) =~= power_args(action));
            ToolCommand { program: String::from_str("shutdown"), args }
        },
        PowerAction::Reboot => {
            assert(text_views(args@) =~= power_args(action));
            ToolCommand { program: String::from_str("reboot"), args }
        },
    }
}

/// Reports how a request for `action` ended.
pub fn power_reply(action: PowerAction, outcome: ToolOutcome) -> (r: CommandResult)
    ensures
        r@ == power_reply_view(action, outcome),
{
    match outcome {
        ToolOutcome::LaunchFailed => {
            let message = match action {
                PowerAction::Shutdown => String::from_str("shutdown命令执行失败"),
                PowerAction::Reboot => String::from_str("reboot命令执行失败"),
            };
            CommandResult::failure(message)
        },
        ToolOutcome::Exited { success, stdout, stderr } => {
            if success {
                let message = match action {
                    PowerAction::Shutdown => String::from_str("关机中..."),
                    PowerAction::Reboot => String::from_str("重启中..."),
                };
                CommandResult::success(message, Payload::Nothing)
            } else {
                let head = match action {
                    PowerAction::Shutdown => String::from_str("shutdown命令异常退出，错误信息：\n"),
                    PowerAction::Reboot => String::from_str("reboot命令异常退出，错误信息：\n"),
                };
                CommandResult::failure(head.concat(stderr.as_str()))
            }
        },
    }
}

/// Reports how a shutdown ended, given the outcome of its tool.
pub fn shutdown(outcome: ToolOutcome) -> (r: CommandResult)
    ensures
        r@ == power_reply_view(PowerAction::Shutdown, outcome),
{
    power_reply(PowerAction::Shutdown, outcome)
}

/// Reports how a reboot ended, given the outcome of its tool.
pub fn reboot(outcome: ToolOutcome) -> (r: CommandResult)
    ensures
        r@ == power_reply_view(PowerAction::Reboot, outcome),
{
    power_reply(PowerAction::Reboot, outcome)
}

} // verus!
