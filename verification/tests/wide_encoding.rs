use credential_locker::wide::{credential_target, string_to_pwstr};

#[test]
fn empty_string_is_just_the_terminator() {
    assert_eq!(string_to_pwstr(""), vec![0u16]);
}

#[test]
fn ascii_units_then_terminator() {
    assert_eq!(string_to_pwstr("AB"), vec![0x41, 0x42, 0]);
}

#[test]
fn basic_plane_character_is_one_unit() {
    assert_eq!(string_to_pwstr("\u{00E9}"), vec![0x00E9, 0]);
    assert_eq!(string_to_pwstr("\u{4E2D}"), vec![0x4E2D, 0]);
}

#[test]
fn supplementary_character_is_a_surrogate_pair() {
    assert_eq!(string_to_pwstr("\u{1F600}"), vec![0xD83D, 0xDE00, 0]);
}

#[test]
fn mixed_text_encodes_in_order() {
    assert_eq!(
        string_to_pwstr("a\u{1F600}b"),
        vec![0x61, 0xD83D, 0xDE00, 0x62, 0]
    );
}

#[test]
fn target_name_is_fixed() {
    assert_eq!(credential_target(), "LunchToGo_API_Key");
    let wide = string_to_pwstr(credential_target());
    assert_eq!(wide.len(), "LunchToGo_API_Key".len() + 1);
    assert_eq!(*wide.last().unwrap(), 0u16);
    assert_eq!(wide[0], 'L' as u16);
}
