//! What is asked of the privileged tools, what comes back from them, and the
//! envelope in which every operation reports.

use vstd::prelude::*;
use crate::disk::{disk_views, DiskInfo, DiskInfoView};
use crate::text::text_views;

verus! {

/// A tool to run: the program and its arguments.
#[derive(Debug, Clone, PartialEq, Eq)]
pub struct ToolCommand {
    pub program: String,
    pub args: Vec<String>,
}

/// The content of a [`ToolCommand`].
pub struct ToolCommandView {
    pub program: Seq<char>,
    pub args: Seq<Seq<char>>,
}

impl View for ToolCommand {
    type V = ToolCommandView;

    open spec fn view(&self) -> ToolCommandView {
        ToolCommandView { program: self.program@, args: text_views(self.args@) }
    }
}

/// How a run of a tool ended.
#[derive(Debug, Clone, PartialEq, Eq)]
pub enum ToolOutcome {
    /// The tool could not be started.
    LaunchFailed,
    /// The tool ran and exited; `success` tells whether its exit status was
    /// zero, `stderr` is the text it wrote to standard error.
    Exited { success: bool, stdout: Vec<u8>, stderr: String },
}

/// What a successful operation hands back.
#[derive(Debug, Clone, PartialEq, Eq)]
pub enum Payload {
    Nothing,
    MountPoint(String),
    Disks(Vec<DiskInfo>),
}

/// The content of a [`Payload`].
pub enum PayloadView {
    Nothing,
    MountPoint(Seq<char>),
    Disks(Seq<DiskInfoView>),
}

impl View for Payload {
    type V = PayloadView;

    open spec fn view(&self) -> PayloadView {
        match self {
            Payload::Nothing => PayloadView::Nothing,
            Payload::MountPoint(path) => PayloadView::MountPoint(path@),
            Payload::Disks(disks) => PayloadView::Disks(disk_views(disks@)),
        }
    }
}

/// The envelope every operation reports in. `code` is 0 on success and
/// anything else on failure.
#[derive(Debug, Clone, PartialEq, Eq)]
pub struct CommandResult {
    pub code: i32,
    pub message: String,
    pub data: Payload,
}

/// The content of a [`CommandResult`].
pub struct CommandResultView {
    pub code: int,
    pub message: Seq<char>,
    pub data: PayloadView,
}

impl View for CommandResult {
    type V = CommandResultView;

    open spec fn view(&self) -> CommandResultView {
        CommandResultView { code: self.code as int, message: self.message@, data: self.data@ }
    }
}

/// The code of every failure.
pub const FAILURE_CODE: i32 = -1;

/// A success with `message` and `data`.
pub open spec fn success_view(message: Seq<char>, data: PayloadView) -> CommandResultView {
    CommandResultView { code: 0, message, data }
}

/// A failure with `message`.
pub open spec fn failure_view(message: Seq<char>) -> CommandResultView {
    CommandResultView { code: FAILURE_CODE as int, message, data: PayloadView::Nothing }
}

impl CommandResult {
    /// A success with `message` and `data`.
    pub fn success(message: String, data: Payload) -> (r: CommandResult)
        ensures
            r@ == success_view(message@, data@),
    {
        CommandResult { code: 0, message, data }
    }

    /// A failure with `message`.
    pub fn failure(message: String) -> (r: CommandResult)
        ensures
            r@ == failure_view(message@),
    {
        CommandResult { code: FAILURE_CODE, message, data: Payload::Nothing }
    }

    /// Whether this reports a success.
    pub fn is_success(&self) -> (r: bool)
        ensures
            r == (self@.code == 0),
    {
        self.code == 0
    }
}

} // verus!
