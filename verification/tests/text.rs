use policy_casbin::text::blank;

#[test]
fn white_space_is_what_the_standard_library_takes_for_it() {
    for c in '\u{0}'..=char::MAX {
        assert_eq!(blank(&c.to_string()), c.is_whitespace(), "{:?}", c);
    }
}

#[test]
fn a_text_is_blank_if_all_of_it_is() {
    assert!(blank(""));
    assert!(blank(" \t\r\n"));
    assert!(!blank(" x "));
}
