use gphoto::port::from_libgphoto2;
use gphoto::{Camera, ErrorKind, PortList, PortType};

fn entry(name: &str, path: &str) -> (Vec<u8>, Vec<u8>) {
    (name.as_bytes().to_vec(), path.as_bytes().to_vec())
}

fn probed() -> Vec<(Vec<u8>, Vec<u8>)> {
    vec![
        entry("Universal Serial Bus", "usb:"),
        entry("usb:001,002", "usb:001,002"),
        entry("Serial Port 0", "serial:/dev/ttyS0"),
        entry("usb:001,002", "usb:001,005"),
        entry("Media Transfer Protocol", "usb:001,005"),
    ]
}

fn grown(path: &str) -> Vec<(Vec<u8>, Vec<u8>)> {
    let mut entries = probed();
    entries.push(entry("Generic Port", path));
    entries
}

fn loaded() -> PortList {
    let mut list = PortList::new(0).unwrap();
    list.load(0, probed()).unwrap();
    list
}

fn scan(names: &[&str], wanted: &str) -> Option<usize> {
    for (i, name) in names.iter().enumerate() {
        if *name == wanted {
            return Some(i);
        }
    }
    None
}

#[test]
fn port_type_follows_the_native_tag() {
    let camera = Camera::new(0).unwrap();
    let of = |tag: i32| from_libgphoto2(&camera, tag, Vec::new(), Vec::new()).port_type();
    assert_eq!(of(1), PortType::Serial);
    assert_eq!(of(4), PortType::USB);
    assert_eq!(of(8), PortType::Disk);
    assert_eq!(of(16), PortType::PTPIP);
    assert_eq!(of(32), PortType::Direct);
    assert_eq!(of(64), PortType::SCSI);
}

#[test]
fn port_type_of_any_other_tag_is_other() {
    let camera = Camera::new(0).unwrap();
    for tag in [0, 2, 3, 5, 12, 128, -1, i32::MAX, i32::MIN] {
        let port = from_libgphoto2(&camera, tag, Vec::new(), Vec::new());
        assert_eq!(port.port_type(), PortType::Other, "tag {}", tag);
    }
}

#[test]
fn port_name_and_path_are_decoded_leniently() {
    let camera = Camera::new(0).unwrap();
    let port = camera.port(4, b"Universal Serial Bus".to_vec(), b"usb:020,007".to_vec());
    assert_eq!(port.port_type(), PortType::USB);
    assert_eq!(port.name(), "Universal Serial Bus");
    assert_eq!(port.path(), "usb:020,007");
    let odd = camera.port(1, vec![b'S', 0xff], vec![0xfe, b'0']);
    assert_eq!(odd.name(), "S\u{fffd}");
    assert_eq!(odd.path(), "\u{fffd}0");
}

#[test]
fn a_new_port_list_is_empty() {
    let mut list = PortList::new(0).unwrap();
    assert_eq!(list.len(), 0);
    assert_eq!(list.lookup_name("usb:").unwrap_err().kind(), ErrorKind::NotFound);
}

#[test]
fn a_port_list_that_was_not_allocated_is_an_error() {
    let e = PortList::new(-3).unwrap_err();
    assert_eq!(e.code(), -3);
    assert_eq!(e.kind(), ErrorKind::IoFailure);
}

#[test]
fn load_takes_the_probed_entries() {
    let mut list = loaded();
    assert_eq!(list.len(), 5);
}

#[test]
fn load_is_idempotent() {
    let mut list = loaded();
    let again = vec![entry("Universal Serial Bus", "usb:"), entry("usb:001,002", "usb:001,002")];
    list.load(0, again.clone()).unwrap();
    assert_eq!(list.len(), 2);
    list.load(0, again).unwrap();
    assert_eq!(list.len(), 2);
    assert_eq!(list.lookup_name("usb:001,002").unwrap(), 1);
}

#[test]
fn a_failed_load_leaves_the_list_as_it_was() {
    let mut list = loaded();
    let e = list.load(-4, vec![entry("x", "y")]).unwrap_err();
    assert_eq!(e.code(), -4);
    assert_eq!(e.kind(), ErrorKind::IoFailure);
    assert_eq!(list.len(), 5);
    assert_eq!(list.lookup_name("Serial Port 0").unwrap(), 2);
    assert!(list.lookup_name("x").is_err());
}

#[test]
fn lookup_name_agrees_with_a_linear_scan() {
    let names = [
        "Universal Serial Bus",
        "usb:001,002",
        "Serial Port 0",
        "usb:001,002",
        "Media Transfer Protocol",
    ];
    let mut list = loaded();
    for wanted in [
        "usb:001,002",
        "Universal Serial Bus",
        "Serial Port 0",
        "Media Transfer Protocol",
        "usb:001,003",
        "usb:001,00",
        "USB:001,002",
        "",
    ] {
        assert_eq!(list.lookup_name(wanted).ok(), scan(&names, wanted), "name {:?}", wanted);
    }
    assert_eq!(list.lookup_name("usb:001,002").unwrap(), 1);
}

#[test]
fn lookup_name_reports_a_missing_name_as_not_found() {
    let mut list = loaded();
    let e = list.lookup_name("usb:009,009").unwrap_err();
    assert_eq!(e.kind(), ErrorKind::NotFound);
    assert_eq!(e.code(), -5);
}

#[test]
fn lookup_name_refuses_an_embedded_nul() {
    let mut list = loaded();
    let e = list.lookup_name("usb:001,002\0").unwrap_err();
    assert_eq!(e.kind(), ErrorKind::BadParameters);
    assert_eq!(e.code(), -2);
    assert_eq!(list.lookup_name("usb\0:").unwrap_err().kind(), ErrorKind::BadParameters);
}

#[test]
fn lookup_path_prefers_the_exact_match() {
    let mut list = loaded();
    assert_eq!(list.lookup_path("usb:001,002", 7, grown("usb:001,002")).unwrap(), 1);
    assert_eq!(list.lookup_path("usb:001,002", -5, probed()).unwrap(), 1);
    assert_eq!(list.lookup_path("usb:001,005", 0, probed()).unwrap(), 3);
    assert_eq!(list.lookup_path("serial:/dev/ttyS0", i32::MIN, Vec::new()).unwrap(), 2);
    assert_eq!(list.len(), 5);
}

#[test]
fn lookup_path_falls_back_to_the_pattern_match() {
    let mut list = loaded();
    let found = list.lookup_path("serial:/dev/ttyUSB3", 5, grown("serial:/dev/ttyUSB3")).unwrap();
    assert_eq!(found, 5);
    assert_eq!(list.len(), 6);
    assert!(found < list.len());
    assert_eq!(list.lookup_name("Generic Port").unwrap(), 5);
}

#[test]
fn a_path_that_a_pattern_matched_is_an_exact_match_afterwards() {
    let mut list = loaded();
    list.lookup_path("serial:/dev/ttyUSB3", 5, grown("serial:/dev/ttyUSB3")).unwrap();
    assert_eq!(list.lookup_path("serial:/dev/ttyUSB3", -5, Vec::new()).unwrap(), 5);
    assert_eq!(list.len(), 6);
}

#[test]
fn lookup_path_gives_no_index_outside_the_list() {
    let mut list = loaded();
    let e = list.lookup_path("serial:/dev/ttyUSB3", 5, probed()).unwrap_err();
    assert_eq!(e.kind(), ErrorKind::NotFound);
    assert_eq!(e.code(), -5);
    assert_eq!(list.len(), 5);
    let mut empty = PortList::new(0).unwrap();
    assert!(empty.lookup_path("usb:", 5, Vec::new()).is_err());
    assert!(empty.lookup_path("usb:", 0, Vec::new()).is_err());
    assert_eq!(empty.len(), 0);
    for reply in [0, 4, 5, 6, i32::MAX] {
        let mut list = loaded();
        if let Ok(i) = list.lookup_path("ptpip:10.0.0.1", reply, probed()) {
            assert!(i < list.len());
        }
    }
}

#[test]
fn lookup_path_without_any_match_is_not_found() {
    let mut list = loaded();
    let e = list.lookup_path("ptpip:192.168.0.1", -5, probed()).unwrap_err();
    assert_eq!(e.kind(), ErrorKind::NotFound);
    assert_eq!(e.code(), -5);
    let e = list.lookup_path("ptpip:192.168.0.1", -7, probed()).unwrap_err();
    assert_eq!(e.kind(), ErrorKind::IoFailure);
    assert_eq!(e.code(), -7);
    assert_eq!(list.len(), 5);
}

#[test]
fn lookup_path_refuses_an_embedded_nul() {
    let mut list = loaded();
    let e = list.lookup_path("usb:\0", 3, Vec::new()).unwrap_err();
    assert_eq!(e.kind(), ErrorKind::BadParameters);
    assert_eq!(e.code(), -2);
    assert_eq!(list.len(), 5);
}
