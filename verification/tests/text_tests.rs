use qbfrt::text::{
    contains_chars, contains_str, from_chars, occurs_at_index, replace_chars, replace_str, single,
    swap_chars, swap_str, to_chars,
};

fn chars(s: &str) -> Vec<char> {
    s.chars().collect()
}

#[test]
fn to_chars_gives_the_characters_in_order() {
    assert_eq!(to_chars("a/b"), vec!['a', '/', 'b']);
    assert_eq!(to_chars(""), Vec::<char>::new());
    assert_eq!(to_chars("é\\"), vec!['é', '\\']);
}

#[test]
fn from_chars_is_the_inverse_of_to_chars() {
    assert_eq!(from_chars(&vec!['q', 'b']), "qb");
    assert_eq!(from_chars(&to_chars("C:\\data\\é")), "C:\\data\\é");
    assert_eq!(from_chars(&Vec::new()), "");
}

#[test]
fn single_holds_one_character() {
    assert_eq!(single('/'), "/");
    assert_eq!(single('\\'), "\\");
}

#[test]
fn occurs_at_index_checks_one_place() {
    let s = chars("/data/movies");
    assert!(occurs_at_index(&s, &chars("/data"), 0));
    assert!(!occurs_at_index(&s, &chars("/data"), 1));
    assert!(occurs_at_index(&s, &chars("movies"), 6));
    assert!(!occurs_at_index(&s, &chars("movies"), 7));
    assert!(occurs_at_index(&s, &chars(""), 12));
    assert!(!occurs_at_index(&s, &chars(""), 13));
    assert!(!occurs_at_index(&chars("ab"), &chars("abc"), 0));
}

#[test]
fn contains_finds_an_occurrence_anywhere() {
    assert!(contains_str("/data/movies", "/data"));
    assert!(contains_str("/data/movies", "movies"));
    assert!(contains_str("/data/movies", "a/m"));
    assert!(!contains_str("/data/movies", "/Data"));
    assert!(!contains_str("/data", "/data/movies"));
    assert!(contains_chars(&chars("abc"), &chars("c")));
    assert!(!contains_chars(&chars("abc"), &chars("d")));
}

#[test]
fn the_empty_pattern_occurs_everywhere() {
    assert!(contains_str("abc", ""));
    assert!(contains_str("", ""));
    assert!(!contains_str("", "a"));
}

#[test]
fn replace_changes_every_occurrence() {
    assert_eq!(replace_str("a-b-c", "-", "+"), "a+b+c");
    assert_eq!(replace_str("/data/data2/data", "/data", "/x"), "/x/x2/x");
    assert_eq!(replace_str("abc", "abc", ""), "");
    assert_eq!(replace_str("abc", "abcd", "x"), "abc");
    assert_eq!(replace_str("", "a", "x"), "");
}

#[test]
fn replace_scans_from_the_left_without_overlap() {
    assert_eq!(replace_str("aaa", "aa", "b"), "ba");
    assert_eq!(replace_str("aaaa", "aa", "b"), "bb");
    assert_eq!(replace_str("ababa", "aba", "x"), "xba");
    assert_eq!(replace_str("aabb", "ab", ""), "ab");
}

#[test]
fn replace_with_the_empty_pattern_inserts_everywhere() {
    assert_eq!(replace_str("abc", "", "-"), "-a-b-c-");
    assert_eq!(replace_str("", "", "-"), "-");
}

#[test]
fn replace_agrees_with_the_standard_library() {
    let cases = [
        ("/data/movies", "/data", "/archive"),
        ("C:\\data\\movies", "C:\\data", "D:\\archive"),
        ("http://a.com/ann", "http://a.com", "https://a.com"),
        ("xxxx", "xx", "xxx"),
        ("héllo wörld", "ö", "oe"),
        ("abc", "", "é"),
    ];
    for (s, from, to) in cases {
        assert_eq!(replace_str(s, from, to), s.replace(from, to));
        assert_eq!(contains_str(s, from), s.contains(from));
        assert_eq!(from_chars(&replace_chars(&chars(s), &chars(from), &chars(to))), s.replace(from, to));
    }
}

#[test]
fn swap_turns_one_character_into_another() {
    assert_eq!(swap_str("C:\\data\\movies", '\\', '/'), "C:/data/movies");
    assert_eq!(swap_str("a/b\\c", '/', '\\'), "a\\b\\c");
    assert_eq!(swap_str("", '/', '\\'), "");
    assert_eq!(swap_chars(&chars("a.b"), '.', ','), chars("a,b"));
}
