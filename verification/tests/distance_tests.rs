use animate::distance::string_distance;

#[test]
fn distance_of_equal_strings_is_zero() {
    assert_eq!(string_distance("hello", "hello"), 0);
    assert_eq!(string_distance("", ""), 0);
}

#[test]
fn distance_counts_characters_past_common_prefix() {
    assert_eq!(string_distance("hello", "help"), 3);
    assert_eq!(string_distance("abc", ""), 3);
    assert_eq!(string_distance("", "xy"), 2);
    assert_eq!(string_distance("abc", "xbc"), 6);
}

#[test]
fn distance_counts_characters_not_bytes() {
    assert_eq!(string_distance("héllo", "hé"), 3);
    assert_eq!(string_distance("日本語", "日本"), 1);
}

#[test]
fn distance_is_symmetric_on_examples() {
    assert_eq!(string_distance("kitten", "kit"), string_distance("kit", "kitten"));
}

#[test]
fn distance_triangle_on_example() {
    let ab = string_distance("abcd", "abxy");
    let ac = string_distance("abcd", "ab");
    let cb = string_distance("ab", "abxy");
    assert!(ab <= ac + cb);
    assert_eq!(ab, 4);
}
