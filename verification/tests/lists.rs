use tunex::lists::{nonempty_str, parse_id_list, parse_name_list, parse_tag_edit, parse_u32_str, split_fields};

#[test]
fn parse_id_list_skips_junk() {
    assert_eq!(parse_id_list("1, 2,x,3,"), vec![1, 2, 3]);
    assert!(parse_id_list("").is_empty());
}

#[test]
fn parse_id_list_keeps_signs_and_order() {
    assert_eq!(parse_id_list(" -4 ,+7,9999999999"), vec![-4, 7, 9_999_999_999]);
    assert!(parse_id_list("99999999999999999999").is_empty(), "overflow is junk");
}

#[test]
fn parse_name_list_trims_and_skips_blank_lines() {
    assert_eq!(
        parse_name_list(" Nova Rae \n\n Solo Act\n"),
        vec!["Nova Rae".to_owned(), "Solo Act".to_owned()]
    );
}

#[test]
fn tag_editor_fields_are_trimmed_and_validated() {
    assert_eq!(nonempty_str("  Blue  "), Some("Blue".to_owned()));
    assert_eq!(nonempty_str("   "), None);
    assert_eq!(parse_u32_str(" 7 "), Some(7));
    assert_eq!(parse_u32_str("0"), None);
    assert_eq!(parse_u32_str("x"), None);
    assert_eq!(parse_u32_str(""), None);
}

#[test]
fn split_fields_keeps_empty_pieces() {
    assert_eq!(split_fields("a,,b", ','), vec!["a".to_owned(), String::new(), "b".to_owned()]);
    assert_eq!(split_fields("", ','), vec![String::new()]);
}

#[test]
fn packed_tag_edit_unpacks_in_field_order() {
    let edit = parse_tag_edit(" One \u{1f}Nova Rae\u{1f}\u{1f}3\u{1f}0\u{1f}2024\u{1f}Ambient");
    assert_eq!(edit.title.as_deref(), Some("One"));
    assert_eq!(edit.artist.as_deref(), Some("Nova Rae"));
    assert_eq!(edit.album, None);
    assert_eq!(edit.track_number, Some(3));
    assert_eq!(edit.disc_number, None);
    assert_eq!(edit.year, Some(2024));
    assert_eq!(edit.genre.as_deref(), Some("Ambient"));
    assert_eq!(edit.composer, None, "missing trailing field is blank");
}
