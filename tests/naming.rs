use just_extension::{prepend_just_prefix, JUST_PREFIX};

#[test]
fn prefix_is_added_to_a_bare_name() {
    assert_eq!(prepend_just_prefix("foo"), "just-foo");
    assert_eq!(prepend_just_prefix(""), "just-");
    assert_eq!(prepend_just_prefix("jus"), "just-jus");
}

#[test]
fn prefixed_name_is_kept() {
    assert_eq!(prepend_just_prefix("just-foo"), "just-foo");
    assert_eq!(prepend_just_prefix(JUST_PREFIX), "just-");
}

#[test]
fn canonicalising_twice_is_canonicalising_once() {
    for n in ["foo", "", "just-", "just-bar", "just", "xjust-"] {
        let once = prepend_just_prefix(n);
        assert_eq!(prepend_just_prefix(&once), once);
    }
}

#[test]
fn non_ascii_names_are_prefixed() {
    assert_eq!(prepend_just_prefix("übung"), "just-übung");
}
