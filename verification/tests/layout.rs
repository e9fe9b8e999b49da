use experiment::layout::{destination_name, name_record, staging_directory, start_time_record};

#[test]
fn the_layout_has_its_names() {
    assert_eq!(staging_directory(), ".new");
    assert_eq!(name_record(), "name");
    assert_eq!(start_time_record(), "start-time");
}

#[test]
fn destination_joins_name_time_and_suffix() {
    let name = "foo".to_string();
    let time = "2018-05-01T12:00:00.123456+00:00".to_string();
    assert_eq!(
        destination_name(&name, &time, &[0xde, 0xad, 0xbe, 0xef]),
        "foo-2018-05-01T12:00:00.123456+00:00-deadbeef"
    );
}

#[test]
fn suffix_is_lower_case_with_the_high_half_first() {
    let name = "n".to_string();
    let time = "t".to_string();
    assert_eq!(destination_name(&name, &time, &[0x00, 0x0f, 0xf0, 0xff]), "n-t-000ff0ff");
    assert_eq!(destination_name(&name, &time, &[0x01, 0x23, 0x45, 0x67]), "n-t-01234567");
    assert_eq!(destination_name(&name, &time, &[0x89, 0xab, 0xcd, 0xef]), "n-t-89abcdef");
    assert_eq!(destination_name(&name, &time, &[0x10, 0x0a, 0xa0, 0x9f]), "n-t-100aa09f");
}

#[test]
fn suffix_has_eight_digits_whatever_the_bytes() {
    let name = "experiment".to_string();
    let time = "now".to_string();
    for high in [0u8, 1, 15, 16, 127, 128, 254, 255] {
        let text = destination_name(&name, &time, &[high, 0, 255, high]);
        assert_eq!(text.len(), name.len() + time.len() + 10);
        let suffix = &text[text.len() - 8..];
        assert!(suffix.chars().all(|c| matches!(c, '0'..='9' | 'a'..='f')));
        assert_eq!(u32::from_str_radix(suffix, 16).unwrap().to_be_bytes(), [high, 0, 255, high]);
    }
}

#[test]
fn destination_keeps_odd_names_as_they_are() {
    let name = "a-b c/é".to_string();
    let time = "".to_string();
    assert_eq!(destination_name(&name, &time, &[0, 0, 0, 0]), "a-b c/é--00000000");
    let empty = "".to_string();
    assert_eq!(destination_name(&empty, &empty, &[0, 0, 0, 1]), "--00000001");
}
