use blogdrown::bounded::BoundString;

#[test]
fn new_accepts_exactly_the_range() {
    assert!(BoundString::<2, 4>::new("a".to_string()).is_none());
    assert!(BoundString::<2, 4>::new("ab".to_string()).is_some());
    assert!(BoundString::<2, 4>::new("abcd".to_string()).is_some());
    assert!(BoundString::<2, 4>::new("abcde".to_string()).is_none());
}

#[test]
fn new_counts_codepoints_not_bytes() {
    // four codepoints, twelve bytes
    let s = "日本語字".to_string();
    assert_eq!(s.len(), 12);
    assert!(BoundString::<2, 4>::new(s).is_some());
    // five codepoints
    assert!(BoundString::<2, 4>::new("日本語字字".to_string()).is_none());
    // one codepoint of four bytes: too short although the bytes would do
    assert!(BoundString::<2, 4>::new("😀".to_string()).is_none());
}

#[test]
fn new_keeps_the_text() {
    let b = BoundString::<2, 8>::new("héllo".to_string()).unwrap();
    assert_eq!(b.as_str(), "héllo");
    assert_eq!(b.into_inner(), "héllo".to_string());
}

#[test]
fn new_unchecked_takes_anything() {
    let b = BoundString::<6, 64>::new_unchecked("x".to_string());
    assert_eq!(b.into_inner(), "x".to_string());
}

#[test]
fn check_reports_the_length_and_the_bounds() {
    let e = BoundString::<6, 64>::check("username".to_string(), "abc".to_string()).unwrap_err();
    assert_eq!(e.field, "username");
    assert_eq!(e.actual, 3);
    assert_eq!(e.min, 6);
    assert_eq!(e.max, 64);
    assert!(BoundString::<6, 64>::check("username".to_string(), "abcdef".to_string()).is_ok());
}

#[test]
fn empty_range_edges() {
    assert!(BoundString::<0, 0>::new(String::new()).is_some());
    assert!(BoundString::<0, 0>::new("a".to_string()).is_none());
}
