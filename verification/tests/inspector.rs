use pi_panel::command::{CommandResult, Payload, ToolCommand, ToolOutcome};
use pi_panel::disk::{
    disk_info, inspect, inventory_command, list_disks, listing_reply, DiskInfo, InventoryError,
};
use pi_panel::json::{parse, Json, Member};
use pi_panel::mount::mount_command;

const FIXTURE: &str = r#"{
   "blockdevices": [
      {"vendor":"ATA     ", "kname":"sda", "name":"sda", "type":"disk", "rm":false, "mountpoint":null,
       "label":null, "model":"Samsung SSD 860", "fstype":null, "size":"232.9G", "tran":"sata",
       "children": [
          {"vendor":null, "kname":"sda1", "name":"sda1", "type":"part", "rm":false, "mountpoint":"/",
           "label":null, "model":null, "fstype":"ext4", "size":"232.9G", "tran":null}
       ]
      },
      {"vendor":"SanDisk ", "kname":"sdb", "name":"sdb", "type":"disk", "rm":true, "mountpoint":null,
       "label":null, "model":"Cruzer Blade", "fstype":null, "size":"14.9G", "tran":"usb",
       "children": [
          {"vendor":null, "kname":"sdb1", "name":"sdb1", "type":"part", "rm":true,
           "mountpoint":"/mnt/usb1", "label":"BOOT", "model":null, "fstype":"vfat", "size":"256M",
           "tran":null},
          {"vendor":null, "kname":"sdb2", "name":"sdb2", "type":"part", "rm":true, "mountpoint":null,
           "label":"rootfs", "model":null, "fstype":"ext4", "size":14680064, "tran":null}
       ]
      }
   ]
}"#;

fn text(s: &str) -> Json {
    Json::Text(String::from(s))
}

fn member(name: &str, value: Json) -> Member {
    Member { name: String::from(name), value }
}

fn object(members: Vec<Member>) -> Json {
    Json::Object(members)
}

fn first_usb_partition() -> DiskInfo {
    DiskInfo {
        vendor: text("SanDisk "),
        kname: text("sdb1"),
        device_name: text("Cruzer Blade"),
        label: text("BOOT"),
        fs_type: text("vfat"),
        size: text("256M"),
        mount_point: text("/mnt/usb1"),
    }
}

fn second_usb_partition() -> DiskInfo {
    DiskInfo {
        vendor: text("SanDisk "),
        kname: text("sdb2"),
        device_name: text("Cruzer Blade"),
        label: text("rootfs"),
        fs_type: text("ext4"),
        size: Json::Number(String::from("14680064")),
        mount_point: Json::Null,
    }
}

fn succeeded(stdout: &str) -> ToolOutcome {
    ToolOutcome::Exited { success: true, stdout: stdout.as_bytes().to_vec(), stderr: String::new() }
}

#[test]
fn only_partitions_of_usb_devices_are_listed() {
    let disks = inspect(FIXTURE.as_bytes()).unwrap();
    assert_eq!(disks.len(), 2);
    assert_eq!(disks, vec![first_usb_partition(), second_usb_partition()]);
    for disk in &disks {
        assert_ne!(disk.kname, text("sda1"));
        assert_ne!(disk.device_name, text("Samsung SSD 860"));
    }
}

#[test]
fn parsing_keeps_every_kind_of_value() {
    let doc = parse(r#"{"b": [1, -2, 1.5, true, null, "x", {"k": []}], "a": "é"}"#.as_bytes()).unwrap();
    let expected = object(vec![
        member("a", text("é")),
        member(
            "b",
            Json::Array(vec![
                Json::Number(String::from("1")),
                Json::Number(String::from("-2")),
                Json::Number(String::from("1.5")),
                Json::Bool(true),
                Json::Null,
                text("x"),
                object(vec![member("k", Json::Array(Vec::new()))]),
            ]),
        ),
    ]);
    assert_eq!(doc, expected);
}

#[test]
fn parsing_rejects_what_is_no_json() {
    assert_eq!(parse(b""), None);
    assert_eq!(parse(b"{"), None);
    assert_eq!(parse(b"{\"a\": 1} trailing"), None);
    assert_eq!(parse(&[0xff, 0xfe]), None);
}

#[test]
fn a_repeated_member_is_read_once() {
    let doc = parse(br#"{"a": 1, "a": 2}"#).unwrap();
    assert_eq!(doc, object(vec![member("a", Json::Number(String::from("2")))]));
    assert_eq!(doc.get("a"), Some(&Json::Number(String::from("2"))));
}

#[test]
fn lookup_finds_the_first_member_of_that_name() {
    let doc = object(vec![member("a", text("1")), member("b", text("2")), member("a", text("3"))]);
    assert_eq!(doc.get("a"), Some(&text("1")));
    assert_eq!(doc.get("b"), Some(&text("2")));
    assert_eq!(doc.get("c"), None);
    assert_eq!(doc.get(""), None);
    assert_eq!(text("a").get("a"), None);
    assert_eq!(Json::Array(vec![text("a")]).get("a"), None);
}

#[test]
fn accessors_tell_the_variants_apart() {
    assert_eq!(text("usb").as_str(), Some("usb"));
    assert_eq!(Json::Null.as_str(), None);
    assert_eq!(Json::Number(String::from("1")).as_str(), None);
    assert_eq!(Json::Array(vec![Json::Null]).as_array(), Some(&vec![Json::Null]));
    assert_eq!(text("usb").as_array(), None);
    assert_eq!(object(Vec::new()).as_array(), None);
}

#[test]
fn a_clone_equals_the_value_cloned() {
    let doc = parse(FIXTURE.as_bytes()).unwrap();
    assert_eq!(doc.clone(), doc);
}

#[test]
fn a_usb_device_without_children_is_skipped() {
    let doc = br#"{"blockdevices": [{"kname": "sdc", "tran": "usb", "vendor": "Kingston"}]}"#;
    assert_eq!(inspect(doc), Ok(Vec::new()));
}

#[test]
fn a_usb_device_with_no_partitions_lists_nothing() {
    let doc = br#"{"blockdevices": [{"kname": "sdc", "tran": "usb", "children": []}]}"#;
    assert_eq!(inspect(doc), Ok(Vec::new()));
}

#[test]
fn an_empty_inventory_lists_nothing() {
    assert_eq!(inspect(br#"{"blockdevices": []}"#), Ok(Vec::new()));
}

#[test]
fn transport_must_be_exactly_usb() {
    let doc = br#"{"blockdevices": [
        {"tran": "USB", "children": [{"kname": "a"}]},
        {"tran": null, "children": [{"kname": "b"}]},
        {"tran": ["usb"], "children": [{"kname": "c"}]},
        {"children": [{"kname": "d"}]},
        "usb",
        {"tran": "usb", "children": [{"kname": "e"}]}
    ]}"#;
    let disks = inspect(doc).unwrap();
    assert_eq!(disks.len(), 1);
    assert_eq!(disks[0].kname, text("e"));
}

#[test]
fn missing_fields_are_null() {
    let doc = br#"{"blockdevices": [{"tran": "usb", "children": [{}, 7]}]}"#;
    let blank = DiskInfo {
        vendor: Json::Null,
        kname: Json::Null,
        device_name: Json::Null,
        label: Json::Null,
        fs_type: Json::Null,
        size: Json::Null,
        mount_point: Json::Null,
    };
    assert_eq!(inspect(doc), Ok(vec![blank.clone(), blank]));
}

#[test]
fn devices_keep_their_order() {
    let doc = br#"{"blockdevices": [
        {"tran": "usb", "model": "B", "children": [{"kname": "sdb1"}, {"kname": "sdb2"}]},
        {"tran": "sata", "model": "S", "children": [{"kname": "sdz1"}]},
        {"tran": "usb", "model": "A", "children": [{"kname": "sda1"}]}
    ]}"#;
    let disks = inspect(doc).unwrap();
    let seen: Vec<(Json, Json)> =
        disks.iter().map(|d| (d.device_name.clone(), d.kname.clone())).collect();
    assert_eq!(
        seen,
        vec![(text("B"), text("sdb1")), (text("B"), text("sdb2")), (text("A"), text("sda1"))]
    );
}

#[test]
fn an_inventory_that_is_no_json_is_an_error() {
    assert_eq!(inspect(b"lsblk: not found"), Err(InventoryError::NotJson));
    assert_eq!(inspect(b""), Err(InventoryError::NotJson));
}

#[test]
fn an_inventory_of_another_shape_is_an_error() {
    assert_eq!(inspect(b"[]"), Err(InventoryError::UnexpectedShape));
    assert_eq!(inspect(b"{}"), Err(InventoryError::UnexpectedShape));
    assert_eq!(inspect(br#"{"blockdevices": 5}"#), Err(InventoryError::UnexpectedShape));
    assert_eq!(inspect(br#"{"blockdevices": null}"#), Err(InventoryError::UnexpectedShape));
}

#[test]
fn children_that_are_no_array_break_a_usb_device_only() {
    let usb = br#"{"blockdevices": [
        {"tran": "usb", "children": [{"kname": "sdb1"}]},
        {"tran": "usb", "children": null}
    ]}"#;
    assert_eq!(inspect(usb), Err(InventoryError::UnexpectedShape));
    let sata = br#"{"blockdevices": [
        {"tran": "usb", "children": [{"kname": "sdb1"}]},
        {"tran": "sata", "children": null}
    ]}"#;
    assert_eq!(inspect(sata).map(|disks| disks.len()), Ok(1));
}

#[test]
fn listing_works_on_a_document_built_by_hand() {
    let child = object(vec![member("kname", text("sdb1")), member("fstype", text("vfat"))]);
    let device = object(vec![
        member("tran", text("usb")),
        member("vendor", text("V")),
        member("model", text("M")),
        member("children", Json::Array(vec![child])),
    ]);
    let doc = object(vec![member("blockdevices", Json::Array(vec![device]))]);
    let disks = list_disks(&doc).unwrap();
    assert_eq!(disks.len(), 1);
    assert_eq!(disks[0].vendor, text("V"));
    assert_eq!(disks[0].device_name, text("M"));
    assert_eq!(disks[0].kname, text("sdb1"));
    assert_eq!(disks[0].fs_type, text("vfat"));
    assert_eq!(disks[0].size, Json::Null);
    assert_eq!(list_disks(&object(Vec::new())), None);
}

#[test]
fn the_inventory_tool_is_asked_for_the_columns_read() {
    let expected = ToolCommand {
        program: String::from("lsblk"),
        args: vec![
            String::from("-J"),
            String::from("-o"),
            String::from("VENDOR,KNAME,NAME,TYPE,RM,MOUNTPOINT,LABEL,MODEL,FSTYPE,SIZE,TRAN"),
        ],
    };
    assert_eq!(inventory_command(), expected);
}

#[test]
fn a_listing_is_reported_with_its_disks() {
    let answer = disk_info(succeeded(FIXTURE));
    assert_eq!(answer.code, 0);
    assert_eq!(answer.message, "");
    assert_eq!(answer.data, Payload::Disks(vec![first_usb_partition(), second_usb_partition()]));
}

#[test]
fn an_inventory_tool_that_fails_is_reported_with_its_words() {
    let outcome = ToolOutcome::Exited {
        success: false,
        stdout: FIXTURE.as_bytes().to_vec(),
        stderr: String::from("lsblk: unknown column\n"),
    };
    assert_eq!(disk_info(outcome), CommandResult::failure(String::from("lsblk: unknown column\n")));
}

#[test]
fn an_inventory_tool_that_does_not_start_is_reported() {
    let answer = disk_info(ToolOutcome::LaunchFailed);
    assert_eq!(answer.code, -1);
    assert_eq!(answer.message, "命令执行失败");
    assert_eq!(answer.data, Payload::Nothing);
}

#[test]
fn an_unreadable_inventory_is_reported_not_fatal() {
    let expected = CommandResult::failure(String::from("Failed to convert lsblk info to json"));
    assert_eq!(disk_info(succeeded("not json")), expected);
    assert_eq!(disk_info(succeeded("{\"blockdevices\": {}}")), expected);
    assert_eq!(listing_reply(Err(InventoryError::NotJson)), expected);
    assert_eq!(listing_reply(Err(InventoryError::UnexpectedShape)), expected);
}

#[test]
fn a_listed_disk_can_be_handed_to_mount() {
    let disks = inspect(FIXTURE.as_bytes()).unwrap();
    let fat = mount_command(&disks[0], "/mnt/usb1").unwrap();
    assert_eq!(fat.program, "mount");
    assert_eq!(fat.args, vec!["/dev/sdb1", "/mnt/usb1", "-o", "rw,umask=0000"]);
    let other = mount_command(&disks[1], "/mnt/usb2").unwrap();
    assert_eq!(other.args, vec!["/dev/sdb2", "/mnt/usb2"]);
}
