use daplink_easyflash::disk_tool::{locate_disk, wait_for_drive_step, DiskResult, DriveWait};
use daplink_easyflash::hex_merge::merge_ws_hex;
use daplink_easyflash::open_ocd_task::{flash_target_args, flash_wb55_args, script_args, search_path_args};
use daplink_easyflash::serial_line::LineReader;
use daplink_easyflash::serial_ports::{port_name_le, sort_ports, SerialPortInfo};

fn port(name: &str, product: Option<&str>) -> SerialPortInfo {
    SerialPortInfo::new(name.to_string(), product.map(|p| p.to_string()))
}

fn names(v: &[SerialPortInfo]) -> Vec<(String, Option<String>)> {
    v.iter().map(|p| (p.port.clone(), p.product.clone())).collect()
}

#[test]
fn merge_concatenates_first_then_second() {
    let a = vec![1u8, 2, 3];
    let b = vec![9u8, 8];
    let mut r = Vec::new();
    merge_ws_hex(&a, &b, &mut r);
    assert_eq!(r, vec![1, 2, 3, 9, 8]);
}

#[test]
fn merge_truncates_an_existing_result() {
    let a = b":10000000AB\r\n".to_vec();
    let b = b":00000001FF\r\n".to_vec();
    let mut r = vec![0xEEu8; 100];
    merge_ws_hex(&a, &b, &mut r);
    let first = r.clone();
    assert_eq!(first.len(), a.len() + b.len());
    merge_ws_hex(&a, &b, &mut r);
    assert_eq!(r, first);
}

#[test]
fn merge_is_not_commutative() {
    let a = vec![1u8];
    let b = vec![2u8, 3];
    let mut ab = Vec::new();
    let mut ba = Vec::new();
    merge_ws_hex(&a, &b, &mut ab);
    merge_ws_hex(&b, &a, &mut ba);
    assert_ne!(ab, ba);
    assert_eq!(ba, vec![2, 3, 1]);
}

#[test]
fn merge_is_associative_in_content() {
    let (a, b, c) = (vec![1u8], vec![2u8, 3], vec![4u8]);
    let (mut ab, mut ab_c, mut bc, mut a_bc) = (Vec::new(), Vec::new(), Vec::new(), Vec::new());
    merge_ws_hex(&a, &b, &mut ab);
    merge_ws_hex(&ab, &c, &mut ab_c);
    merge_ws_hex(&b, &c, &mut bc);
    merge_ws_hex(&a, &bc, &mut a_bc);
    assert_eq!(ab_c, a_bc);
}

#[test]
fn merge_of_empty_images() {
    let mut r = vec![5u8];
    merge_ws_hex(&Vec::new(), &Vec::new(), &mut r);
    assert!(r.is_empty());
}

#[test]
fn serial_ports_sort_labelled_first() {
    let sorted = sort_ports(vec![port("COM3", None), port("COM1", Some("X")), port("COM2", Some("A"))]);
    assert_eq!(
        names(&sorted),
        vec![
            ("COM1".to_string(), Some("X".to_string())),
            ("COM2".to_string(), Some("A".to_string())),
            ("COM3".to_string(), None)
        ]
    );
}

#[test]
fn serial_ports_sort_keeps_equal_names_in_order() {
    let sorted = sort_ports(vec![
        port("/dev/ttyUSB1", None),
        port("/dev/ttyACM0", Some("B")),
        port("/dev/ttyACM0", Some("A")),
        port("/dev/ttyS0", None),
    ]);
    assert_eq!(
        names(&sorted),
        vec![
            ("/dev/ttyACM0".to_string(), Some("B".to_string())),
            ("/dev/ttyACM0".to_string(), Some("A".to_string())),
            ("/dev/ttyS0".to_string(), None),
            ("/dev/ttyUSB1".to_string(), None)
        ]
    );
    assert!(sort_ports(Vec::new()).is_empty());
}

#[test]
fn port_names_compare_lexicographically() {
    assert!(port_name_le("COM1", "COM2"));
    assert!(!port_name_le("COM2", "COM1"));
    assert!(port_name_le("COM1", "COM10"));
    assert!(!port_name_le("COM10", "COM1"));
    assert!(port_name_le("COM10", "COM2"));
    assert!(port_name_le("", ""));
    assert!(port_name_le("same", "same"));
}

#[test]
fn serial_port_display_names() {
    assert_eq!(port("COM4", Some("STeaMi")).display_name(), "COM4 - STeaMi");
    assert_eq!(port("COM4", None).display_name(), "COM4");
}

#[test]
fn locate_disk_finds_the_first_match() {
    let disks = vec![
        DiskResult { name: "DATA".to_string(), path: "/media/a".to_string() },
        DiskResult { name: "MAINTENANCE".to_string(), path: "/media/b".to_string() },
        DiskResult { name: "MAINTENANCE".to_string(), path: "/media/c".to_string() },
    ];
    assert_eq!(locate_disk(&disks, "MAINTENANCE"), Ok(1));
    assert_eq!(locate_disk(&disks, "STEAMI"), Err("Unable to find 'STEAMI' disk.".to_string()));
    assert_eq!(locate_disk(&Vec::new(), "X"), Err("Unable to find 'X' disk.".to_string()));
}

#[test]
fn drive_wait_decisions() {
    let disks = vec![DiskResult { name: "MAINTENANCE".to_string(), path: "/m".to_string() }];
    assert_eq!(wait_for_drive_step(&disks, "MAINTENANCE", 0, 5000), DriveWait::Found);
    assert_eq!(wait_for_drive_step(&disks, "MAINTENANCE", 5000, 5000), DriveWait::Found);
    assert_eq!(wait_for_drive_step(&disks, "MAINTENANCE", 5001, 5000), DriveWait::TimedOut);
    assert_eq!(wait_for_drive_step(&Vec::new(), "MAINTENANCE", 4500, 5000), DriveWait::PollAgain);
}

#[test]
fn tool_arguments() {
    assert_eq!(
        search_path_args("/c", "/t", "/w"),
        vec!["-s", "scripts", "-s", "/c", "-s", "/t", "-s", "/w"]
    );
    assert_eq!(script_args("/c/f1x-unlock.cfg"), vec!["-f", "/c/f1x-unlock.cfg"]);
    assert_eq!(flash_target_args("/t", "/c/f1x-flash.cfg"), vec!["-s", "/t", "-f", "/c/f1x-flash.cfg"]);
    assert_eq!(
        flash_wb55_args("merge.hex"),
        vec!["-f", "wb5x.cfg", "-c", "program merge.hex verify reset", "-c", "reset run", "-c", "exit"]
    );
}

#[test]
fn line_reader_stops_at_newline() {
    let mut r = LineReader::new();
    let mut done = false;
    for b in b"{\"status\":0}\nrest" {
        done = r.feed(*b);
        if done {
            break;
        }
    }
    assert!(done);
    assert!(r.feed(b'x'));
    assert_eq!(r.into_bytes(), b"{\"status\":0}".to_vec());
    let mut empty = LineReader::new();
    assert!(empty.feed(b'\n'));
    assert!(empty.into_bytes().is_empty());
}
