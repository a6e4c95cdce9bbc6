//! The mount guard: nothing is mounted or unmounted outside the sandbox
//! root, and nothing on a path that is missing or no directory.
//!
//! A request passes through the guard in steps. [`mount_disk`] or
//! [`remove_disk`] names the path to act on, or rejects the request. The
//! caller looks the path up and [`check_target`] judges what was found. The
//! caller then runs [`mount_command`] or [`unmount_command`], and
//! [`tool_result`] judges how the tool ended. [`reply`] reports.

use vstd::prelude::*;
use vstd::string::{StrSliceExecFns, StringExecFns};
use crate::command::{failure_view, success_view, CommandResult, CommandResultView, Payload, PayloadView, ToolCommand, ToolCommandView, ToolOutcome};
use crate::config::MountBasePath;
use crate::disk::{inventory_disks, DiskInfo, DiskInfoView};
use crate::json::{text_of, JsonView};
use crate::text::{begins_with, chars_of, clean, cleaned, same_text, text_views};

verus! {

/// What is asked of the guard.
#[derive(Debug, Clone, Copy, PartialEq, Eq, Structural)]
pub enum Operation {
    Mount,
    Unmount,
}

/// What was found at a path.
#[derive(Debug, Clone, Copy, PartialEq, Eq, Structural)]
pub enum PathKind {
    /// Nothing is there.
    Missing,
    /// A directory.
    Directory,
    /// Something that is no directory.
    Other,
}

/// Why a request was turned down.
#[derive(Debug, Clone, PartialEq, Eq)]
pub enum MountError {
    /// The request names no mount point.
    MissingMountPoint,
    /// The mount point lies outside the sandbox root, or is the root itself.
    InvalidMountPoint,
    /// Nothing exists at the mount point.
    PathNotFound,
    /// The mount point is no directory.
    NotADirectory,
    /// The tool ran and reported an error; `stderr` is what it wrote.
    ToolExecutionFailed { stderr: String },
    /// The tool could not be started.
    ToolLaunchFailed,
}

/// The content of a [`MountError`].
pub enum MountErrorView {
    MissingMountPoint,
    InvalidMountPoint,
    PathNotFound,
    NotADirectory,
    ToolExecutionFailed { stderr: Seq<char> },
    ToolLaunchFailed,
}

impl View for MountError {
    type V = MountErrorView;

    open spec fn view(&self) -> MountErrorView {
        match self {
            MountError::MissingMountPoint => MountErrorView::MissingMountPoint,
            MountError::InvalidMountPoint => MountErrorView::InvalidMountPoint,
            MountError::PathNotFound => MountErrorView::PathNotFound,
            MountError::NotADirectory => MountErrorView::NotADirectory,
            MountError::ToolExecutionFailed { stderr } => MountErrorView::ToolExecutionFailed {
                stderr: stderr@,
            },
            MountError::ToolLaunchFailed => MountErrorView::ToolLaunchFailed,
        }
    }
}

/// The content of the outcome of a step that names a path.
pub open spec fn path_outcome(r: Result<String, MountError>) -> Result<Seq<char>, MountErrorView> {
    match r {
        Ok(path) => Ok(path@),
        Err(error) => Err(error@),
    }
}

/// The content of the outcome of a step that names nothing.
pub open spec fn step_outcome(r: Result<(), MountError>) -> Result<(), MountErrorView> {
    match r {
        Ok(_) => Ok(()),
        Err(error) => Err(error@),
    }
}

/// Whether `path` is absolute: it begins with the path separator.
pub open spec fn is_absolute(path: Seq<char>) -> bool {
    path.len() > 0 && path[0] == '/'
}

/// Whether `path` lies strictly below `root`: it begins with `root` and goes
/// on after it.
pub open spec fn is_proper_descendant(root: Seq<char>, path: Seq<char>) -> bool {
    root.is_prefix_of(path) && path.len() > root.len()
}

/// The test that a mount applies to an absolute path: it is turned down
/// when it is as long as the root, or does not begin with the root.
pub open spec fn mount_rejects(root: Seq<char>, path: Seq<char>) -> bool {
    path.len() == root.len() || !root.is_prefix_of(path)
}

/// The test that an unmount applies to an absolute path: it is turned down
/// when it is no longer than the root, or does not begin with the root.
pub open spec fn unmount_rejects(root: Seq<char>, path: Seq<char>) -> bool {
    path.len() <= root.len() || !root.is_prefix_of(path)
}

/// Whether `op` turns the absolute path `path` down.
pub open spec fn rejects(op: Operation, root: Seq<char>, path: Seq<char>) -> bool {
    match op {
        Operation::Mount => mount_rejects(root, path),
        Operation::Unmount => unmount_rejects(root, path),
    }
}

/// The path that the mount point `raw` stands for under `root`, or nothing
/// where it is turned down. The mount point is cleaned first. An absolute
/// one must pass the test of `op` and then stands for itself; a relative one
/// is appended to the root as it is.
pub open spec fn resolution(op: Operation, root: Seq<char>, raw: Seq<char>) -> Option<Seq<char>> {
    let path = cleaned(raw);
    if is_absolute(path) {
        if rejects(op, root, path) {
            None
        } else {
            Some(path)
        }
    } else {
        Some(root + path)
    }
}

/// The path that a request about `disk` is to act on, or the reason why the
/// request is turned down.
pub open spec fn requested_target(op: Operation, root: Seq<char>, disk: DiskInfoView) -> Result<
    Seq<char>,
    MountErrorView,
> {
    match text_of(disk.mount_point) {
        None => Err(MountErrorView::MissingMountPoint),
        Some(raw) => match resolution(op, root, raw) {
            Some(path) => Ok(path),
            None => Err(MountErrorView::InvalidMountPoint),
        },
    }
}

/// What is made of a path at which `kind` was found.
pub open spec fn target_check(kind: PathKind) -> Result<(), MountErrorView> {
    match kind {
        PathKind::Directory => Ok(()),
        PathKind::Missing => Err(MountErrorView::PathNotFound),
        PathKind::Other => Err(MountErrorView::NotADirectory),
    }
}

/// What is made of a tool that ended in `outcome`.
pub open spec fn tool_check(outcome: ToolOutcome) -> Result<(), MountErrorView> {
    match outcome {
        ToolOutcome::LaunchFailed => Err(MountErrorView::ToolLaunchFailed),
        ToolOutcome::Exited { success, stdout, stderr } => if success {
            Ok(())
        } else {
            Err(MountErrorView::ToolExecutionFailed { stderr: stderr@ })
        },
    }
}

/// The device file of the partition called `kname`.
pub open spec fn device_path(kname: Seq<char>) -> Seq<char> {
    "/dev/"@ + kname
}

/// The file system whose partitions are mounted with [`permissive_options`].
pub open spec fn permissive_fs_type() -> Seq<char> {
    "vfat"@
}

/// Read-write, with every permission bit left on.
pub open spec fn permissive_options() -> Seq<Seq<char>> {
    seq!["-o"@, "rw,umask=0000"@]
}

/// The options that a partition with file system `fs_type` is mounted with.
pub open spec fn mount_options(fs_type: JsonView) -> Seq<Seq<char>> {
    if text_of(fs_type) == Some(permissive_fs_type()) {
        permissive_options()
    } else {
        Seq::empty()
    }
}

/// The arguments that mount `disk` on `target`.
pub open spec fn mount_args(disk: DiskInfoView, target: Seq<char>) -> Seq<Seq<char>> {
    seq![device_path(text_of(disk.kname)->0), target] + mount_options(disk.fs_type)
}

/// Whether `disk` names the partition to mount: its kernel name is a text
/// and not empty.
pub open spec fn names_device(disk: DiskInfoView) -> bool {
    text_of(disk.kname) matches Some(kname) && kname.len() > 0
}

/// The message of a request that went through.
pub open spec fn done_message() -> Seq<char> {
    "成功"@
}

/// The message that reports `error` for `op`.
pub open spec fn error_message(op: Operation, error: MountErrorView) -> Seq<char> {
    match error {
        MountErrorView::MissingMountPoint => "参数错误，未指定挂载点"@,
        MountErrorView::InvalidMountPoint => "错误的挂载点"@,
        MountErrorView::PathNotFound => "挂载点路径不存在"@,
        MountErrorView::NotADirectory => "挂载点路径不是一个目录！"@,
        MountErrorView::ToolExecutionFailed { stderr } => stderr,
        MountErrorView::ToolLaunchFailed => match op {
            Operation::Mount => "mount command failed to execute"@,
            Operation::Unmount => "umount command failed to execute"@,
        },
    }
}

/// The reply to a request for `op` that ended in `result`. A mount that
/// went through hands back the path it mounted on; an unmount hands back
/// nothing.
pub open spec fn reply_view(op: Operation, result: Result<Seq<char>, MountErrorView>) -> CommandResultView {
    match result {
        Ok(target) => match op {
            Operation::Mount => success_view(done_message(), PayloadView::MountPoint(target)),
            Operation::Unmount => success_view(done_message(), PayloadView::Nothing),
        },
        Err(error) => failure_view(error_message(op, error)),
    }
}

/// Resolves the mount point `raw` under the sandbox root: white space is
/// trimmed and leading dots are dropped; an absolute path must lie strictly
/// below the root, a relative one is appended to the root.
pub fn resolve_mount_point(base: &MountBasePath, raw: &str, op: Operation) -> (r: Result<
    String,
    MountError,
>)
    ensures
        path_outcome(r) == match resolution(op, base@, raw@) {
            Some(path) => Ok(path),
            None => Err(MountErrorView::InvalidMountPoint),
        },
{
    let part = clean(raw);
    let path = chars_of(part);
    if path.len() > 0 && path[0] == '/' {
        let root = base.chars();
        let below = begins_with(&path, root);
        let outside = match op {
            Operation::Mount => path.len() == root.len() || !below,
            Operation::Unmount => path.len() <= root.len() || !below,
        };
        if outside {
            Err(MountError::InvalidMountPoint)
        } else {
            Ok(String::from_str(part))
        }
    } else {
        Ok(String::from_str(base.as_str()).concat(part))
    }
}

/// The first step of either request: the path to act on, or the reason why
/// the request is turned down.
fn target_for(base: &MountBasePath, disk: &DiskInfo, op: Operation) -> (r: Result<
    String,
    MountError,
>)
    ensures
        path_outcome(r) == requested_target(op, base@, disk@),
{
    match disk.mount_point.as_str() {
        None => Err(MountError::MissingMountPoint),
        Some(raw) => resolve_mount_point(base, raw, op),
    }
}

/// Opens a request to mount `disk`: names the path to mount on, or turns
/// the request down because it names no mount point or one outside the
/// sandbox.
pub fn mount_disk(base: &MountBasePath, disk: &DiskInfo) -> (r: Result<String, MountError>)
    ensures
        path_outcome(r) == requested_target(Operation::Mount, base@, disk@),
{
    target_for(base, disk, Operation::Mount)
}

/// Opens a request to unmount what is mounted on the mount point of `disk`:
/// names the path to unmount, or turns the request down because it names no
/// mount point or one outside the sandbox.
pub fn remove_disk(base: &MountBasePath, disk: &DiskInfo) -> (r: Result<String, MountError>)
    ensures
        path_outcome(r) == requested_target(Operation::Unmount, base@, disk@),
{
    target_for(base, disk, Operation::Unmount)
}

/// Judges what was found at the path to act on: it must exist and be a
/// directory.
pub fn check_target(kind: PathKind) -> (r: Result<(), MountError>)
    ensures
        step_outcome(r) == target_check(kind),
{
    match kind {
        PathKind::Directory => Ok(()),
        PathKind::Missing => Err(MountError::PathNotFound),
        PathKind::Other => Err(MountError::NotADirectory),
    }
}

/// The command that mounts `disk` on `target`: the device file of the
/// partition, the target, and for a FAT partition the permissive options.
/// `None` where `disk` does not name the partition.
pub fn mount_command(disk: &DiskInfo, target: &str) -> (r: Option<ToolCommand>)
    ensures
        r is Some <==> names_device(disk@),
        r matches Some(command) ==> command@ == (ToolCommandView {
            program: "mount"@,
            args: mount_args(disk@, target@),
        }),
{
    let kname = match disk.kname.as_str() {
        Some(kname) => kname,
        None => {
            return None;
        },
    };
    if kname.unicode_len() == 0 {
        return None;
    }
    let permissive = match disk.fs_type.as_str() {
        Some(fs_type) => same_text(fs_type, "vfat"),
        None => false,
    };
    let mut args: Vec<String> = Vec::new();
    args.push(String::from_str("/dev/").concat(kname));
    args.push(String::from_str(target));
    if permissive {
        args.push(String::from_str("-o"));
        args.push(String::from_str("rw,umask=0000"));
    }
    assert(text_views(args@) =~= mount_args(disk@, target@));
    Some(ToolCommand { program: String::from_str("mount"), args })
}

/// The command that unmounts what is mounted on `target`.
pub fn unmount_command(target: &str) -> (r: ToolCommand)
    ensures
        r@ == (ToolCommandView { program: "umount"@, args: seq![target@] }),
{
    let mut args: Vec<String> = Vec::new();
    args.push(String::from_str(target));
    assert(text_views(args@) =~= seq![target@]);
    ToolCommand { program: String::from_str("umount"), args }
}

/// Judges how the tool ended: an exit with an error is reported with what
/// the tool wrote to standard error, a tool that did not start as such.
pub fn tool_result(outcome: ToolOutcome) -> (r: Result<(), MountError>)
    ensures
        step_outcome(r) == tool_check(outcome),
{
    match outcome {
        ToolOutcome::LaunchFailed => Err(MountError::ToolLaunchFailed),
        ToolOutcome::Exited { success, stdout, stderr } => {
            if success {
                Ok(())
            } else {
                Err(MountError::ToolExecutionFailed { stderr })
            }
        },
    }
}

/// The text that reports `error` for `op`.
pub fn message_of(op: Operation, error: MountError) -> (r: String)
    ensures
        r@ == error_message(op, error@),
{
    match error {
        MountError::MissingMountPoint => String::from_str("参数错误，未指定挂载点"),
        MountError::InvalidMountPoint => String::from_str("错误的挂载点"),
        MountError::PathNotFound => String::from_str("挂载点路径不存在"),
        MountError::NotADirectory => String::from_str("挂载点路径不是一个目录！"),
        MountError::ToolExecutionFailed { stderr } => stderr,
        MountError::ToolLaunchFailed => match op {
            Operation::Mount => String::from_str("mount command failed to execute"),
            Operation::Unmount => String::from_str("umount command failed to execute"),
        },
    }
}

/// Reports how a request for `op` ended. `result` holds the path acted on,
/// or the reason why the request failed.
pub fn reply(op: Operation, result: Result<String, MountError>) -> (r: CommandResult)
    ensures
        r@ == reply_view(op, path_outcome(result)),
{
    match result {
        Ok(target) => match op {
            Operation::Mount => CommandResult::success(
                String::from_str("成功"),
                Payload::MountPoint(target),
            ),
            Operation::Unmount => CommandResult::success(String::from_str("成功"), Payload::Nothing),
        },
        Err(error) => CommandResult::failure(message_of(op, error)),
    }
}

/// A relative mount point resolves to the root followed by the cleaned
/// mount point as it stands: nothing in it is collapsed or dropped.
pub proof fn lemma_relative_is_appended(op: Operation, root: Seq<char>, raw: Seq<char>)
    requires
        !is_absolute(cleaned(raw)),
    ensures
        resolution(op, root, raw) == Some(root + cleaned(raw)),
{
}

/// An absolute mount point that is the root itself is turned down, by a
/// mount and by an unmount.
pub proof fn lemma_root_is_rejected(op: Operation, root: Seq<char>, disk: DiskInfoView)
    requires
        text_of(disk.mount_point) matches Some(raw) && is_absolute(cleaned(raw)) && cleaned(raw)
            == root,
    ensures
        requested_target(op, root, disk) == Err::<Seq<char>, MountErrorView>(
            MountErrorView::InvalidMountPoint,
        ),
{
}

/// An absolute mount point strictly below the root passes, by a mount and
/// by an unmount, and is the path to look up.
pub proof fn lemma_descendant_is_admitted(op: Operation, root: Seq<char>, disk: DiskInfoView)
    requires
        text_of(disk.mount_point) matches Some(raw) && is_absolute(cleaned(raw))
            && is_proper_descendant(root, cleaned(raw)),
    ensures
        requested_target(op, root, disk) == Ok::<Seq<char>, MountErrorView>(
            cleaned(text_of(disk.mount_point)->0),
        ),
{
}

/// An absolute mount point that does not begin with the root is turned
/// down, by a mount and by an unmount.
pub proof fn lemma_outside_is_rejected(op: Operation, root: Seq<char>, disk: DiskInfoView)
    requires
        text_of(disk.mount_point) matches Some(raw) && is_absolute(cleaned(raw))
            && !root.is_prefix_of(cleaned(raw)),
    ensures
        requested_target(op, root, disk) == Err::<Seq<char>, MountErrorView>(
            MountErrorView::InvalidMountPoint,
        ),
{
}

/// The two boundary tests draw the same line: each turns down exactly the
/// absolute paths that do not lie strictly below the root.
pub proof fn lemma_boundaries_agree(op: Operation, root: Seq<char>, path: Seq<char>)
    ensures
        rejects(op, root, path) <==> !is_proper_descendant(root, path),
        mount_rejects(root, path) <==> unmount_rejects(root, path),
{
    if root.is_prefix_of(path) && path.len() == root.len() {
        assert(path =~= root);
    }
}

/// A mount and an unmount act on the same path, and turn down the same
/// requests.
pub proof fn lemma_mount_and_unmount_agree(root: Seq<char>, disk: DiskInfoView)
    ensures
        requested_target(Operation::Mount, root, disk) == requested_target(
            Operation::Unmount,
            root,
            disk,
        ),
{
    if text_of(disk.mount_point) is Some {
        lemma_boundaries_agree(Operation::Mount, root, cleaned(text_of(disk.mount_point)->0));
    }
}

/// Whatever path a request is to act on lies below the root, or is the root
/// itself where the mount point is relative and empty.
pub proof fn lemma_target_is_in_sandbox(op: Operation, root: Seq<char>, disk: DiskInfoView)
    requires
        requested_target(op, root, disk) is Ok,
    ensures
        root.is_prefix_of(requested_target(op, root, disk)->Ok_0),
{
    let raw = text_of(disk.mount_point)->0;
    let path = cleaned(raw);
    if !is_absolute(path) {
        assert((root + path).subrange(0, root.len() as int) =~= root);
    }
}

/// A tool that exits with an error, as an unmount of what is not mounted
/// does, ends the request in a failure that carries the tool's own words.
pub proof fn lemma_tool_failure_is_reported(op: Operation, outcome: ToolOutcome)
    requires
        outcome matches ToolOutcome::Exited { success, .. } && !success,
    ensures
        tool_check(outcome) == Err::<(), MountErrorView>(
            MountErrorView::ToolExecutionFailed { stderr: outcome->stderr@ },
        ),
        reply_view(
            op,
            Err(MountErrorView::ToolExecutionFailed { stderr: outcome->stderr@ }),
        ) == failure_view(outcome->stderr@),
{
}

/// A disk that the inspector lists is mounted from the device file named
/// after its kernel name, with the permissive options where its file system
/// is FAT and with no options otherwise.
pub proof fn lemma_listed_disk_mount_args(doc: JsonView, i: int, target: Seq<char>)
    requires
        inventory_disks(doc) matches Some(disks) && 0 <= i < disks.len() && names_device(disks[i]),
    ensures
        ({
            let disk = inventory_disks(doc)->0[i];
            let device = "/dev/"@ + text_of(disk.kname)->0;
            if disk.fs_type == JsonView::Text("vfat"@) {
                mount_args(disk, target) == seq![device, target, "-o"@, "rw,umask=0000"@]
            } else {
                mount_args(disk, target) == seq![device, target]
            }
        }),
{
    let disk = inventory_disks(doc)->0[i];
    let device = "/dev/"@ + text_of(disk.kname)->0;
    if disk.fs_type == JsonView::Text("vfat"@) {
        assert(mount_args(disk, target) =~= seq![device, target, "-o"@, "rw,umask=0000"@]);
    } else {
        assert(mount_args(disk, target) =~= seq![device, target]);
    }
}

} // verus!
