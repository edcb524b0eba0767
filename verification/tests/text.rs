use aiop::text::{
    begins_with, characters, contains_text, joined, precedes, repeated, same_optional_text,
    same_text,
};

#[test]
fn equal_texts_are_the_same() {
    assert!(same_text("left", "left"));
    assert!(!same_text("left", "right"));
    assert!(same_optional_text(&None, &None));
    assert!(same_optional_text(&Some("a".to_owned()), &Some("a".to_owned())));
    assert!(!same_optional_text(&Some("a".to_owned()), &None));
    assert!(!same_optional_text(&Some("a".to_owned()), &Some("b".to_owned())));
}

#[test]
fn texts_are_taken_apart_and_put_together() {
    assert_eq!(joined("left", "right"), "leftright");
    assert_eq!(characters("a😀b"), vec!['a', '😀', 'b']);
    assert_eq!(repeated('r', 3), "rrr");
    assert_eq!(repeated('r', 0), "");
}

#[test]
fn parts_are_found_where_they_stand() {
    assert!(begins_with("prefix and rest", "prefix"));
    assert!(begins_with("prefix", ""));
    assert!(!begins_with("pre", "prefix"));
    assert!(contains_text("one two three", "two"));
    assert!(contains_text("one", ""));
    assert!(contains_text("aab", "ab"));
    assert!(!contains_text("one", "one two"));
    assert!(!contains_text("one two", "three"));
}

#[test]
fn text_order_is_the_order_of_the_encodings() {
    assert!(precedes("a", "b"));
    assert!(precedes("a", "aa"));
    assert!(precedes("", "a"));
    assert!(!precedes("a", "a"));
    assert!(!precedes("b", "a"));
    assert!(precedes("z", "é"));
    assert!(precedes("\u{ffff}", "\u{10000}"));
}
