use touchpilot::hook::windows::focus_restore::{native_contact, FocusState};
use touchpilot::hook::windows::native_touch::{
    devices_changed, packet_fits, split_reports, NativeTouch, Reports, MAX_DEVICES, MAX_REPORTS,
};

#[test]
fn packet_boundaries_are_validated_before_hid_decoding() {
    let mut packet = vec![2, 0, 0, 0, 2, 0, 0, 0, 10, 11, 12, 13];
    let reports: Vec<_> = split_reports(&packet).unwrap();
    assert_eq!(reports, [vec![10, 11], vec![12, 13]]);
    for length in 0..packet.len() {
        assert!(split_reports(&packet[..length]).is_none());
    }
    packet[0] = 0;
    assert!(split_reports(&packet).is_none());
    packet[0] = 2;
    packet[4] = (MAX_REPORTS + 1) as u8;
    assert!(split_reports(&packet).is_none());
}

#[test]
fn device_changes_discard_cached_identity_and_buffers() {
    let mut native = NativeTouch::new();
    let mut focus = FocusState::new();
    native.last_touch_device = Some(123);
    native.reports.packet.resize(8192, 0);
    devices_changed(&mut native, &mut focus);
    assert_eq!(native.last_touch_device, None);
    assert_eq!(native.reports.packet.capacity(), 0);
}

#[test]
fn device_changes_cancel_native_touch() {
    let mut native = NativeTouch::new();
    let mut focus = FocusState::new();
    native_contact(&mut focus, &mut 0, true, true, None, 0, Some(1));
    assert!(focus.native_capture.is_some());
    native.reports.add_device(5, None);
    devices_changed(&mut native, &mut focus);
    assert!(focus.native_capture.is_none());
    assert!(native.reports.devices.is_empty());
}

#[test]
fn multi_byte_report_header_and_zero_reports() {
    // 256-byte reports, one of them.
    let mut packet = vec![0, 1, 0, 0, 1, 0, 0, 0];
    packet.extend(std::iter::repeat(7u8).take(256));
    let reports = split_reports(&packet).unwrap();
    assert_eq!(reports.len(), 1);
    assert_eq!(reports[0].len(), 256);
    // A header that announces no reports and carries none is well formed.
    assert_eq!(split_reports(&[1, 0, 0, 0, 0, 0, 0, 0]), Some(vec![]));
    // A zero report size is not.
    assert_eq!(split_reports(&[0, 0, 0, 0, 0, 0, 0, 0]), None);
}

#[test]
fn touchscreens_are_cached_and_other_devices_are_not() {
    let mut native = NativeTouch::new();
    assert!(!native.is_cached(9));
    assert!(!native.is_touchscreen(9, Some((0x0d, 0x05))));
    assert!(!native.is_touchscreen(9, None));
    assert!(native.is_touchscreen(9, Some((0x0d, 0x04))));
    assert!(native.is_cached(9));
    assert!(native.is_touchscreen(9, None));
    assert!(!native.is_cached(10));
}

#[test]
fn release_is_published_only_when_every_device_is_up() {
    let mut reports = Reports::default();
    assert_eq!(reports.add_device(1, None), Some(0));
    assert_eq!(reports.add_device(2, None), Some(1));
    assert_eq!(reports.device_index(2), Some(1));
    assert_eq!(reports.device_index(3), None);
    assert_eq!(reports.publish(0, &vec![Some(true)]), vec![Some(true)]);
    // The second screen lifts while the first still has a finger down.
    assert_eq!(reports.publish(1, &vec![Some(false), None]), vec![Some(true), None]);
    // The first lifts too: now the release is published.
    assert_eq!(reports.publish(0, &vec![Some(false)]), vec![Some(false)]);
    assert!(!reports.devices[0].in_contact);
    for key in 3..=(MAX_DEVICES as isize) {
        assert!(reports.add_device(key, None).is_some());
    }
    assert_eq!(reports.add_device(100, None), None);
    assert_eq!(reports.devices.len(), MAX_DEVICES);
}

#[test]
fn packet_sizes_between_header_and_limit_are_read() {
    assert!(packet_fits(24 + 8, 24));
    assert!(!packet_fits(24 + 7, 24));
    assert!(packet_fits(65536, 24));
    assert!(!packet_fits(65537, 24));
    assert!(!packet_fits(3, 0));
}
