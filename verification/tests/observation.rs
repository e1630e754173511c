use sentinel_window::error::HookKind;
use sentinel_window::observation::{
    describe_observation, format_handle, get_class, get_class_checked, hook_name,
};

#[test]
fn handle_is_written_in_upper_case_hex_with_eight_digits() {
    assert_eq!(format_handle(0), "00000000");
    assert_eq!(format_handle(1), "00000001");
    assert_eq!(format_handle(9), "00000009");
    assert_eq!(format_handle(10), "0000000A");
    assert_eq!(format_handle(15), "0000000F");
    assert_eq!(format_handle(16), "00000010");
    assert_eq!(format_handle(255), "000000FF");
    assert_eq!(format_handle(0x1A2B), "00001A2B");
    assert_eq!(format_handle(0xDEADBEEF), "DEADBEEF");
    assert_eq!(format_handle(0x0ABCDEF0), "0ABCDEF0");
    assert_eq!(format_handle(0x7FFF_FFFF), "7FFFFFFF");
}

#[test]
fn handle_wider_than_eight_digits_is_not_cut() {
    assert_eq!(format_handle(u32::MAX as usize), "FFFFFFFF");
    assert_eq!(format_handle(usize::MAX), format!("{:08X}", usize::MAX));
    if usize::BITS >= 64 {
        let wide = (0x1_2345_6789u64) as usize;
        assert_eq!(format_handle(wide), "123456789");
    }
}

#[test]
fn handle_text_agrees_with_the_formatter_of_the_standard_library() {
    let mut value: usize = 1;
    for _ in 0..200 {
        assert_eq!(format_handle(value), format!("{:08X}", value));
        value = value.wrapping_mul(2_654_435_761).wrapping_add(12_345);
    }
}

#[test]
fn hook_names() {
    assert_eq!(hook_name(HookKind::WindowProc), "win_proc_hook");
    assert_eq!(hook_name(HookKind::WindowProcReturn), "win_proc_ret_hook");
    assert_eq!(hook_name(HookKind::GetMessage), "get_message_hook");
}

#[test]
fn observation_lines() {
    assert_eq!(
        describe_observation(HookKind::WindowProc, 0x1A2B, "Shell_TrayWnd"),
        "win_proc_hook Window: 00001A2B Class: Shell_TrayWnd"
    );
    assert_eq!(
        describe_observation(HookKind::WindowProcReturn, 0, ""),
        "win_proc_ret_hook Window: 00000000 Class: "
    );
    assert_eq!(
        describe_observation(HookKind::GetMessage, 0xFFFF_FFFF, "Progman"),
        "get_message_hook Window: FFFFFFFF Class: Progman"
    );
}

#[test]
fn class_name_is_decoded_from_the_reported_length() {
    let mut buffer = [0u16; 512];
    let name: Vec<u16> = "Shell_TrayWnd".encode_utf16().collect();
    buffer[..name.len()].copy_from_slice(&name);
    assert_eq!(get_class(&buffer, name.len() as i32), "Shell_TrayWnd");
    assert_eq!(get_class(&buffer, 5), "Shell");
    assert_eq!(get_class(&buffer, 0), "");
    assert_eq!(get_class(&buffer, 512).chars().count(), 512);
}

#[test]
fn class_name_of_a_negative_length_is_empty() {
    let buffer = [0x41u16, 0x42, 0x43];
    assert_eq!(get_class(&buffer, -1), "");
    assert_eq!(get_class(&buffer, i32::MIN), "");
    assert_eq!(get_class_checked(&buffer, -7), Some(String::new()));
}

#[test]
fn class_name_decoding_replaces_invalid_units() {
    let buffer = [0x0041u16, 0xD800, 0x0042];
    assert_eq!(get_class(&buffer, 3), "A\u{FFFD}B");
    let pair = [0xD83Du16, 0xDE00, 0x0021];
    assert_eq!(get_class(&pair, 3), "\u{1F600}!");
    assert_eq!(get_class(&pair, 1), "\u{FFFD}");
}

#[test]
fn class_name_is_text_not_code_units() {
    let buffer = [0x00E9u16, 0x4E2D];
    let name = get_class(&buffer, 2);
    assert_eq!(name, "\u{e9}\u{4e2d}");
    assert_eq!(name.chars().count(), 2);
    assert_eq!(name.len(), 5);
}

#[test]
fn checked_class_name_refuses_a_length_past_the_buffer() {
    let buffer = [0x41u16, 0x42, 0x43];
    assert_eq!(get_class_checked(&buffer, 3), Some("ABC".to_string()));
    assert_eq!(get_class_checked(&buffer, 2), Some("AB".to_string()));
    assert_eq!(get_class_checked(&buffer, 4), None);
    assert_eq!(get_class_checked(&buffer, i32::MAX), None);
    assert_eq!(get_class_checked(&[], 0), Some(String::new()));
    assert_eq!(get_class_checked(&[], 1), None);
}

#[test]
fn observation_of_a_decoded_class_name() {
    let units: Vec<u16> = "Progman".encode_utf16().collect();
    let class = get_class(&units, units.len() as i32);
    assert_eq!(
        describe_observation(HookKind::GetMessage, 0x00010A2C, &class),
        "get_message_hook Window: 00010A2C Class: Progman"
    );
}
