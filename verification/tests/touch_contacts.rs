use touchpilot::hook::windows::touch_contacts::{
    button_caps_fit, descriptor_size_fits, ButtonCap, Decoder, Frame, MAX_CONTACTS,
};

#[test]
fn parallel_contacts_release_only_when_every_tip_is_up() {
    let mut frame = Frame::default();
    frame.start(2);
    assert_eq!(frame.push(false), None);
    assert_eq!(frame.push(true), Some(true));
    frame.start(2);
    assert_eq!(frame.push(false), None);
    assert_eq!(frame.push(false), Some(false));
}

#[test]
fn hybrid_zero_count_continues_the_frame() {
    let mut frame = Frame::default();
    assert_eq!(frame.start(0), None);
    frame.start(2);
    assert_eq!(frame.push(true), None);
    assert_eq!(frame.start(0), Some(1));
    assert_eq!(frame.push(false), Some(true));
    frame.start(1);
    assert_eq!(frame.push(false), Some(false));
    assert_eq!(frame.start(MAX_CONTACTS + 1), None);
}

fn tip(report_id: u8, link: u16) -> ButtonCap {
    ButtonCap {
        usage_page: 0x0d,
        report_id,
        link_collection: link,
        is_range: false,
        usage_min: 0x42,
        usage_max: 0,
    }
}

#[test]
fn decoder_collects_distinct_tip_switches() {
    let other = ButtonCap {
        usage_page: 0x09,
        ..tip(1, 0)
    };
    let range = ButtonCap {
        is_range: true,
        usage_min: 0x40,
        usage_max: 0x47,
        ..tip(1, 2)
    };
    let outside = ButtonCap {
        is_range: true,
        usage_min: 0x43,
        usage_max: 0x47,
        ..tip(1, 3)
    };
    let decoder = Decoder::new(vec![1, 2], &vec![tip(1, 1), other, tip(1, 1), range, outside]).unwrap();
    assert_eq!(decoder.tips, vec![(1, 1), (1, 2)]);
    assert_eq!(decoder.descriptor, vec![1, 2]);
    assert!(Decoder::new(vec![], &vec![other, outside]).is_none());
    let many: Vec<ButtonCap> = (0..=(MAX_CONTACTS as u16)).map(|l| tip(1, l)).collect();
    assert!(Decoder::new(vec![], &many).is_none());
    let most: Vec<ButtonCap> = (0..(MAX_CONTACTS as u16)).map(|l| tip(1, l)).collect();
    assert_eq!(Decoder::new(vec![], &most).unwrap().tips.len(), MAX_CONTACTS);
    assert!(Decoder::new(vec![], &vec![]).is_none());
}

#[test]
fn decoder_publishes_complete_frames_of_its_report() {
    let mut decoder = Decoder::new(vec![], &vec![tip(1, 1), tip(2, 1), tip(1, 2)]).unwrap();
    // Two contacts in one report: tips of report 1 only.
    assert_eq!(decoder.contact(Some(1), Some(2), &vec![Some(false), Some(true), Some(true)]), Some(true));
    assert_eq!(decoder.contact(Some(1), Some(2), &vec![Some(false), Some(true), Some(false)]), Some(false));
    // A failed usage read discards the frame.
    assert_eq!(decoder.contact(Some(1), Some(2), &vec![Some(true), None, None]), None);
    assert_eq!(decoder.contact(Some(1), Some(0), &vec![Some(true), None, Some(true)]), None);
}

#[test]
fn hybrid_decoder_completes_frames_across_reports() {
    let mut decoder = Decoder::new(vec![], &vec![tip(1, 1)]).unwrap();
    assert_eq!(decoder.contact(Some(1), Some(2), &vec![Some(true)]), None);
    assert_eq!(decoder.contact(Some(1), Some(0), &vec![Some(false)]), Some(true));
    assert_eq!(decoder.contact(Some(1), Some(1), &vec![Some(false)]), Some(false));
    // Empty reports, failed reads and oversized counts publish nothing.
    assert_eq!(decoder.contact(None, Some(1), &vec![Some(true)]), None);
    assert_eq!(decoder.contact(Some(1), None, &vec![Some(true)]), None);
    assert_eq!(decoder.contact(Some(1), Some(0), &vec![Some(true)]), None);
    assert_eq!(decoder.contact(Some(1), Some(1), &vec![None]), None);
    assert_eq!(decoder.contact(Some(1), Some(129), &vec![Some(true)]), None);
    // Another report's ID touches no slot of this decoder.
    assert_eq!(decoder.contact(Some(2), Some(1), &vec![Some(true)]), None);
}

#[test]
fn descriptor_and_button_caps_limits_fail_closed() {
    assert!(!descriptor_size_fits(0));
    assert!(descriptor_size_fits(1));
    assert!(descriptor_size_fits(65536));
    assert!(!descriptor_size_fits(65537));
    assert!(!descriptor_size_fits(u32::MAX));
    assert!(!button_caps_fit(0));
    assert!(button_caps_fit(1));
    assert!(button_caps_fit(512));
    assert!(!button_caps_fit(513));
}
