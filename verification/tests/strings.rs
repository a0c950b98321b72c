use mvnc::device::get_name;
use mvnc::from_c_string;
use mvnc::Error;

#[test]
fn text_before_first_nul_is_decoded() {
    assert_eq!(from_c_string(b"abc\0"), Ok(String::from("abc")));
}

#[test]
fn bytes_after_first_nul_are_ignored() {
    assert_eq!(from_c_string(b"a\0b\0"), Ok(String::from("a")));
}

#[test]
fn empty_text_before_nul_is_empty_string() {
    assert_eq!(from_c_string(b"\0"), Ok(String::from("")));
}

#[test]
fn missing_terminator_is_unknown() {
    assert_eq!(from_c_string(b"abc"), Err(Error::Unknown));
    assert_eq!(from_c_string(b""), Err(Error::Unknown));
}

#[test]
fn invalid_text_is_unknown() {
    assert_eq!(from_c_string(&[0xff, 0xfe, b'a', 0]), Err(Error::Unknown));
}

#[test]
fn name_of_first_device_is_decoded_and_short() {
    // the driver fills a fixed 28-byte NUL-terminated buffer
    let mut buf = [0u8; 28];
    buf[..4].copy_from_slice(b"ncs0");
    let name = get_name(0, &buf).expect("a present device has a name");
    assert_eq!(name, "ncs0");
    assert!(name.chars().count() <= 27);
    assert!(name.chars().all(|c| c != '\0'));
}

#[test]
fn index_past_last_device_is_absence_not_error() {
    let buf = [0u8; 28];
    assert_eq!(get_name(-4, &buf), None);
}

#[test]
fn failing_status_gives_no_name() {
    let mut buf = [0u8; 28];
    buf[..4].copy_from_slice(b"ncs0");
    assert_eq!(get_name(-2, &buf), None);
}

#[test]
fn unterminated_name_buffer_is_absence() {
    let buf = [b'x'; 28];
    assert_eq!(get_name(0, &buf), None);
}

#[test]
fn undecodable_name_buffer_is_absence() {
    let mut buf = [0u8; 28];
    buf[0] = 0xff;
    buf[1] = 0xfe;
    assert_eq!(get_name(0, &buf), None);
}
