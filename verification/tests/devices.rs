use quadcastctl::color::Color;
use quadcastctl::device::{
    claim_interface, cmd_list, find_mic, ClaimResult, DeviceIds, FindError, Listed, Model,
    OpenError, FIRST_INTERFACE,
};
use quadcastctl::packet::{
    build_header_packet, build_solid_packet, check_sent, send_control_packet, ShortTransfer,
};
use quadcastctl::text::list_text;

#[test]
fn known_ids() {
    assert_eq!(Model::from_ids(0x0951, 0x171f), Some(Model::QuadcastS));
    for pid in [0x0f8b, 0x028c, 0x048c, 0x068c] {
        assert_eq!(Model::from_ids(0x03f0, pid), Some(Model::QuadcastS));
    }
    assert_eq!(Model::from_ids(0x03f0, 0x098c), Some(Model::Duocast));
    assert_eq!(Model::from_ids(0x03f0, 0x09af), Some(Model::Quadcast2));
    assert_eq!(Model::from_ids(0x03f0, 0x02b5), Some(Model::Quadcast2S));
    assert_eq!(Model::from_ids(0x0951, 0x0f8b), None);
    assert_eq!(Model::from_ids(0x03f0, 0x171f), None);
    assert_eq!(Model::from_ids(0, 0), None);
}

#[test]
fn names() {
    assert_eq!(Model::QuadcastS.name(), "HyperX Quadcast S");
    assert_eq!(Model::Duocast.name(), "HyperX Duocast");
    assert_eq!(Model::Quadcast2.name(), "HyperX Quadcast 2");
    assert_eq!(Model::Quadcast2S.name(), "HyperX Quadcast 2S");
}

fn ids(vid: u16, pid: u16) -> Option<DeviceIds> {
    Some(DeviceIds { vid, pid })
}

#[test]
fn first_known_microphone_is_taken() {
    let devices = [ids(1, 2), ids(0x03f0, 0x09af), ids(0x03f0, 0x098c), None];
    assert_eq!(find_mic(&devices), Ok((1, Model::Quadcast2)));
}

#[test]
fn unreadable_descriptor_ends_the_search() {
    let devices = [ids(1, 2), None, ids(0x03f0, 0x098c)];
    assert_eq!(find_mic(&devices), Err(FindError::Descriptor(1)));
    assert_eq!(FindError::Descriptor(1).message(), "reading descriptor");
}

#[test]
fn no_microphone() {
    assert_eq!(find_mic(&[]), Err(FindError::NotFound));
    assert_eq!(find_mic(&[ids(1, 2)]), Err(FindError::NotFound));
    assert_eq!(FindError::NotFound.message(), "no compatible HyperX microphone found");
}

#[test]
fn both_interfaces_are_claimed() {
    let first = claim_interface(FIRST_INTERFACE, ClaimResult::Claimed).unwrap();
    assert!(first.note.is_none());
    assert_eq!(first.next, Some(1));
    let last = claim_interface(1, ClaimResult::Claimed).unwrap();
    assert!(last.note.is_none());
    assert_eq!(last.next, None);
}

#[test]
fn other_claim_errors_are_noted() {
    let claim = claim_interface(1, ClaimResult::Other("Access denied".to_string())).unwrap();
    assert_eq!(claim.next, None);
    assert_eq!(
        claim.note.unwrap(),
        "note: could not claim interface 1: Access denied (continuing)"
    );
}

#[test]
fn busy_and_lost_end_opening() {
    let busy = claim_interface(1, ClaimResult::Busy).unwrap_err();
    assert_eq!(busy, OpenError::Busy(1));
    assert_eq!(
        busy.message(),
        "interface 1 is busy — another quadcastctl/quadcastrgb is running?"
    );
    let lost = claim_interface(0, ClaimResult::NoDevice).unwrap_err();
    assert_eq!(lost, OpenError::Disconnected);
    assert_eq!(lost.message(), "device disconnected");
}

fn at(vid: u16, pid: u16, bus: u8, address: u8) -> Option<Listed> {
    Some(Listed { ids: DeviceIds { vid, pid }, bus, address })
}

#[test]
fn every_microphone_is_listed() {
    let devices = [
        at(1, 2, 1, 1),
        at(0x0951, 0x171f, 20, 3),
        at(0x03f0, 0x0000, 20, 4),
        at(0x03f0, 0x098c, 0, 255),
        at(0x0951, 0x171f, 20, 5),
    ];
    assert_eq!(
        cmd_list(&devices).unwrap(),
        [
            "HyperX Quadcast S — VID:PID 0951:171f (bus 20 address 3)",
            "HyperX Duocast — VID:PID 03f0:098c (bus 0 address 255)",
            "HyperX Quadcast S — VID:PID 0951:171f (bus 20 address 5)",
        ]
    );
}

#[test]
fn nothing_to_list() {
    assert_eq!(cmd_list(&[]), Err(FindError::NotFound));
    assert_eq!(cmd_list(&[at(1, 2, 1, 1)]), Err(FindError::NotFound));
}

#[test]
fn unreadable_descriptor_ends_listing_before_a_microphone() {
    let devices = [at(1, 2, 1, 1), None, at(0x03f0, 0x098c, 0, 1), None];
    assert_eq!(cmd_list(&devices), Err(FindError::Descriptor(1)));
}

#[test]
fn unreadable_descriptor_after_a_microphone_is_passed_over() {
    let devices = [at(0x03f0, 0x098c, 0, 1), None, at(1, 2, 1, 1), at(0x03f0, 0x09af, 3, 4)];
    assert_eq!(
        cmd_list(&devices).unwrap(),
        [
            "HyperX Duocast — VID:PID 03f0:098c (bus 0 address 1)",
            "HyperX Quadcast 2 — VID:PID 03f0:09af (bus 3 address 4)",
        ]
    );
}

#[test]
fn header_bytes() {
    let mut expected = [0u8; 64];
    expected[0] = 0x04;
    expected[1] = 0xf2;
    expected[8] = 0x01;
    assert_eq!(build_header_packet(), expected);
}

#[test]
fn solid_bytes() {
    let mut expected = [0u8; 64];
    expected[..8].copy_from_slice(&[0x81, 1, 2, 3, 0x81, 4, 5, 6]);
    let packet = build_solid_packet(Color { r: 1, g: 2, b: 3 }, Color { r: 4, g: 5, b: 6 });
    assert_eq!(packet, expected);
}

#[test]
fn packets_tell_colors_and_headers_apart() {
    let a = Color { r: 1, g: 2, b: 3 };
    let b = Color { r: 4, g: 0xf2, b: 6 };
    assert_ne!(build_solid_packet(a, b), build_solid_packet(b, a));
    assert_ne!(build_solid_packet(b, b), build_header_packet());
}

#[test]
fn control_transfer_fields() {
    let packet = [7u8, 8];
    let t = send_control_packet(&packet);
    assert_eq!((t.request_type, t.request, t.value, t.index), (0x21, 0x09, 0x0300, 0));
    assert_eq!(t.data, &packet);
    assert_eq!(t.timeout_millis, 1000);
}

#[test]
fn short_transfers_are_refused() {
    assert_eq!(check_sent(64, 64), Ok(()));
    let e = check_sent(10, 64).unwrap_err();
    assert_eq!(e, ShortTransfer { sent: 10, expected: 64 });
    assert_eq!(e.message(), "short control transfer: 10 of 64");
}

#[test]
fn lists_are_bracketed() {
    assert_eq!(list_text(&[]), "[]");
    assert_eq!(list_text(&["a".to_string()]), "[a]");
    assert_eq!(list_text(&["a".to_string(), "b".to_string(), "c".to_string()]), "[a, b, c]");
}
