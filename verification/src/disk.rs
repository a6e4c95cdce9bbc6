//! The block-device inspector: from the inventory that the operating system
//! reports to the list of partitions on removable media.

use vstd::prelude::*;
use vstd::string::StringExecFns;
use crate::command::{failure_view, success_view, CommandResult, Payload, PayloadView, ToolCommand, ToolCommandView, ToolOutcome};
use crate::json::{lemma_array_view, member_of, member_or_null, parse, parsed_json, Json, JsonView};
use crate::text::{same_text, text_views};

verus! {

/// One partition that can be mounted. Every field is passed through as the
/// inventory gave it, and is null where the inventory had nothing.
#[derive(Debug, Clone, PartialEq, Eq)]
pub struct DiskInfo {
    pub vendor: Json,
    pub kname: Json,
    pub device_name: Json,
    pub label: Json,
    pub fs_type: Json,
    pub size: Json,
    pub mount_point: Json,
}

/// The content of a [`DiskInfo`].
pub struct DiskInfoView {
    pub vendor: JsonView,
    pub kname: JsonView,
    pub device_name: JsonView,
    pub label: JsonView,
    pub fs_type: JsonView,
    pub size: JsonView,
    pub mount_point: JsonView,
}

impl View for DiskInfo {
    type V = DiskInfoView;

    open spec fn view(&self) -> DiskInfoView {
        DiskInfoView {
            vendor: self.vendor@,
            kname: self.kname@,
            device_name: self.device_name@,
            label: self.label@,
            fs_type: self.fs_type@,
            size: self.size@,
            mount_point: self.mount_point@,
        }
    }
}

/// The contents of `disks`, in order.
pub open spec fn disk_views(disks: Seq<DiskInfo>) -> Seq<DiskInfoView> {
    disks.map_values(|d: DiskInfo| d@)
}

/// Why an inventory could not be turned into a list of disks.
#[derive(Debug, Clone, Copy, PartialEq, Eq, Structural)]
pub enum InventoryError {
    /// The inventory is no JSON text.
    NotJson,
    /// The inventory is JSON, but not of the agreed shape.
    UnexpectedShape,
}

/// Whether `device` is attached over USB.
pub open spec fn is_usb(device: JsonView) -> bool {
    member_of(device, "tran"@) == Some(JsonView::Text("usb"@))
}

/// The disk that partition `child` of `device` is listed as: vendor and
/// model come from the device, the rest from the partition.
pub open spec fn disk_of(device: JsonView, child: JsonView) -> DiskInfoView {
    DiskInfoView {
        vendor: member_or_null(device, "vendor"@),
        kname: member_or_null(child, "kname"@),
        device_name: member_or_null(device, "model"@),
        label: member_or_null(child, "label"@),
        fs_type: member_or_null(child, "fstype"@),
        size: member_or_null(child, "size"@),
        mount_point: member_or_null(child, "mountpoint"@),
    }
}

/// One disk for each of `children`, in order.
pub open spec fn partition_disks(device: JsonView, children: Seq<JsonView>) -> Seq<DiskInfoView> {
    Seq::new(children.len(), |k: int| disk_of(device, children[k]))
}

/// The disks that one top-level device contributes. A device that is not
/// attached over USB, or that lists no children, contributes none; a USB
/// device whose children are not an array breaks the inventory's shape.
pub open spec fn device_disks(device: JsonView) -> Option<Seq<DiskInfoView>> {
    if !is_usb(device) {
        Some(Seq::empty())
    } else {
        match member_of(device, "children"@) {
            None => Some(Seq::empty()),
            Some(JsonView::Array(children)) => Some(partition_disks(device, children)),
            Some(_) => None,
        }
    }
}

/// The disks of the first `n` of `devices`, device after device.
pub open spec fn disks_upto(devices: Seq<JsonView>, n: nat) -> Option<Seq<DiskInfoView>>
    decreases n,
{
    if n == 0 || n > devices.len() {
        Some(Seq::empty())
    } else {
        match (disks_upto(devices, (n - 1) as nat), device_disks(devices[n - 1])) {
            (Some(before), Some(here)) => Some(before + here),
            _ => None,
        }
    }
}

/// The disks that the inventory `doc` lists, or nothing where `doc` is not
/// of the agreed shape: an object whose member `blockdevices` is an array of
/// devices.
pub open spec fn inventory_disks(doc: JsonView) -> Option<Seq<DiskInfoView>> {
    match member_of(doc, "blockdevices"@) {
        Some(JsonView::Array(devices)) => disks_upto(devices, devices.len()),
        _ => None,
    }
}

/// Once the shape is broken among the first `k` devices, it stays broken.
pub proof fn lemma_broken_stays_broken(devices: Seq<JsonView>, k: nat, n: nat)
    requires
        k <= n <= devices.len(),
        disks_upto(devices, k) is None,
    ensures
        disks_upto(devices, n) is None,
    decreases n,
{
    if k < n {
        lemma_broken_stays_broken(devices, k, (n - 1) as nat);
    }
}

/// The member of `value` called `key`, copied, or null where there is none.
fn member_or_null_of(value: &Json, key: &str) -> (r: Json)
    ensures
        r@ == member_or_null(value@, key@),
{
    match value.get(key) {
        Some(found) => found.clone(),
        None => Json::Null,
    }
}

/// Whether `device` is attached over USB.
fn device_is_usb(device: &Json) -> (r: bool)
    ensures
        r == is_usb(device@),
{
    match device.get("tran") {
        Some(tran) => match tran.as_str() {
            Some(name) => same_text(name, "usb"),
            None => false,
        },
        None => false,
    }
}

/// The disk that partition `child` of `device` is listed as.
fn make_disk(device: &Json, child: &Json) -> (r: DiskInfo)
    ensures
        r@ == disk_of(device@, child@),
{
    DiskInfo {
        vendor: member_or_null_of(device, "vendor"),
        kname: member_or_null_of(child, "kname"),
        device_name: member_or_null_of(device, "model"),
        label: member_or_null_of(child, "label"),
        fs_type: member_or_null_of(child, "fstype"),
        size: member_or_null_of(child, "size"),
        mount_point: member_or_null_of(child, "mountpoint"),
    }
}

/// Adds the disks of `device` to `disks`. Returns whether `device` kept to
/// the agreed shape; `disks` is untouched where it did not.
fn push_device_disks(device: &Json, disks: &mut Vec<DiskInfo>) -> (ok: bool)
    ensures
        ok == device_disks(device@) is Some,
        ok ==> disk_views(final(disks)@) == disk_views(old(disks)@) + device_disks(device@)->0,
        !ok ==> final(disks)@ == old(disks)@,
{
    if !device_is_usb(device) {
        assert(disk_views(disks@) + Seq::<DiskInfoView>::empty() =~= disk_views(disks@));
        return true;
    }
    match device.get("children") {
        None => {
            assert(disk_views(disks@) + Seq::<DiskInfoView>::empty() =~= disk_views(disks@));
            true
        },
        Some(children) => match children.as_array() {
            None => false,
            Some(parts) => {
                proof {
                    lemma_array_view(*parts);
                }
                let ghost before = disk_views(disks@);
                let ghost wanted = partition_disks(device@, children@->Array_0);
                let mut k: usize = 0;
                while k < parts.len()
                    invariant
                        k <= parts.len(),
                        wanted.len() == parts.len(),
                        forall|j: int|
                            0 <= j < parts.len() ==> wanted[j] == disk_of(device@, parts@[j]@),
                        disk_views(disks@) == before + wanted.take(k as int),
                    decreases parts.len() - k,
                {
                    let ghost earlier = disks@;
                    let disk = make_disk(device, &parts[k]);
                    disks.push(disk);
                    assert(disk_views(disks@) =~= disk_views(earlier).push(disk@));
                    assert(wanted.take(k as int + 1) =~= wanted.take(k as int).push(
                        wanted[k as int],
                    ));
                    assert(disk_views(disks@) =~= before + wanted.take(k as int + 1));
                    k += 1;
                }
                assert(wanted.take(k as int) =~= wanted);
                true
            },
        },
    }
}

/// Lists the partitions on removable media that the inventory `doc` holds:
/// for each top-level device attached over USB that lists children, one disk
/// per child, in the inventory's order. `None` where `doc` is not of the
/// agreed shape.
pub fn list_disks(doc: &Json) -> (r: Option<Vec<DiskInfo>>)
    ensures
        match r {
            Some(disks) => inventory_disks(doc@) == Some(disk_views(disks@)),
            None => inventory_disks(doc@) is None,
        },
{
    let devices = match doc.get("blockdevices") {
        Some(found) => match found.as_array() {
            Some(devices) => devices,
            None => {
                return None;
            },
        },
        None => {
            return None;
        },
    };
    proof {
        lemma_array_view(*devices);
    }
    let ghost all = member_of(doc@, "blockdevices"@)->0->Array_0;
    let mut disks: Vec<DiskInfo> = Vec::new();
    let mut i: usize = 0;
    assert(disk_views(disks@) =~= Seq::<DiskInfoView>::empty());
    while i < devices.len()
        invariant
            i <= devices.len(),
            member_of(doc@, "blockdevices"@) == Some(JsonView::Array(all)),
            all.len() == devices.len(),
            forall|j: int| 0 <= j < devices.len() ==> all[j] == devices@[j]@,
            disks_upto(all, i as nat) == Some(disk_views(disks@)),
        decreases devices.len() - i,
    {
        let ok = push_device_disks(&devices[i], &mut disks);
        if !ok {
            proof {
                assert(disks_upto(all, (i + 1) as nat) is None);
                lemma_broken_stays_broken(all, (i + 1) as nat, all.len());
            }
            return None;
        }
        i += 1;
    }
    Some(disks)
}

/// Reads an inventory from the bytes that the inventory tool wrote and lists
/// its disks.
pub fn inspect(stdout: &[u8]) -> (r: Result<Vec<DiskInfo>, InventoryError>)
    ensures
        match r {
            Ok(disks) => parsed_json(stdout@) matches Some(doc) && inventory_disks(doc) == Some(
                disk_views(disks@),
            ),
            Err(InventoryError::NotJson) => parsed_json(stdout@) is None,
            Err(InventoryError::UnexpectedShape) => parsed_json(stdout@) matches Some(doc)
                && inventory_disks(doc) is None,
        },
{
    match parse(stdout) {
        None => Err(InventoryError::NotJson),
        Some(doc) => match list_disks(&doc) {
            Some(disks) => Ok(disks),
            None => Err(InventoryError::UnexpectedShape),
        },
    }
}

/// The program that reports the inventory.
pub open spec fn inventory_program() -> Seq<char> {
    "lsblk"@
}

/// Its arguments: structured output, with the columns that the inspector
/// reads.
pub open spec fn inventory_args() -> Seq<Seq<char>> {
    seq!["-J"@, "-o"@, "VENDOR,KNAME,NAME,TYPE,RM,MOUNTPOINT,LABEL,MODEL,FSTYPE,SIZE,TRAN"@]
}

/// The message of a listing that succeeded.
pub open spec fn listed_message() -> Seq<char> {
    ""@
}

/// The message when the inventory tool could not be started.
pub open spec fn inventory_launch_message() -> Seq<char> {
    "命令执行失败"@
}

/// The message when the inventory is no JSON text or not of the agreed
/// shape.
pub open spec fn inventory_malformed_message() -> Seq<char> {
    "Failed to convert lsblk info to json"@
}

/// The command that asks the operating system for its block devices.
pub fn inventory_command() -> (r: ToolCommand)
    ensures
        r@ == (ToolCommandView { program: inventory_program(), args: inventory_args() }),
{
    let mut args: Vec<String> = Vec::new();
    args.push(String::from_str("-J"));
    args.push(String::from_str("-o"));
    args.push(String::from_str("VENDOR,KNAME,NAME,TYPE,RM,MOUNTPOINT,LABEL,MODEL,FSTYPE,SIZE,TRAN"));
    assert(text_views(args@) =~= inventory_args());
    ToolCommand { program: String::from_str("lsblk"), args }
}

/// Wraps the outcome of [`inspect`] as a reply.
pub fn listing_reply(inspected: Result<Vec<DiskInfo>, InventoryError>) -> (r: CommandResult)
    ensures
        r@ == match inspected {
            Ok(disks) => success_view(listed_message(), PayloadView::Disks(disk_views(disks@))),
            Err(_) => failure_view(inventory_malformed_message()),
        },
{
    match inspected {
        Ok(disks) => CommandResult::success(String::from_str(""), Payload::Disks(disks)),
        Err(_) => CommandResult::failure(String::from_str("Failed to convert lsblk info to json")),
    }
}

/// Replies to a request for the disks, given how the inventory tool ended.
/// A tool that could not be started, or that exited with an error, is
/// reported as a failure, the latter with what it wrote to standard error;
/// so is an inventory that cannot be read. Otherwise the reply carries the
/// disks.
pub fn disk_info(outcome: ToolOutcome) -> (r: CommandResult)
    ensures
        outcome is LaunchFailed ==> r@ == failure_view(inventory_launch_message()),
        outcome matches ToolOutcome::Exited { success: false, stderr, .. } ==> r@ == failure_view(
            stderr@,
        ),
        outcome matches ToolOutcome::Exited { success: true, stdout, .. } ==> {
            match parsed_json(stdout@) {
                Some(doc) => match inventory_disks(doc) {
                    Some(disks) => r@ == success_view(listed_message(), PayloadView::Disks(disks)),
                    None => r@ == failure_view(inventory_malformed_message()),
                },
                None => r@ == failure_view(inventory_malformed_message()),
            }
        },
{
    match outcome {
        ToolOutcome::LaunchFailed => CommandResult::failure(String::from_str("命令执行失败")),
        ToolOutcome::Exited { success, stdout, stderr } => {
            if success {
                listing_reply(inspect(stdout.as_slice()))
            } else {
                CommandResult::failure(stderr)
            }
        },
    }
}

} // verus!
