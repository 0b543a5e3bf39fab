use gbrowse::util::{get_init_file, get_keys_file, get_styles_file, split_whitespace_once, get_wrapped_text, find_char};
use gbrowse::chars::{trim, lines, chars_of, str_eq};

fn rows(text: &str, width: usize) -> Vec<String> {
    get_wrapped_text(text, width).into_iter().map(|r| r.into_iter().collect()).collect()
}

#[test]
fn data_paths() {
    assert_eq!(get_init_file("init"), "gdata/init");
    assert_eq!(get_keys_file("vim"), "gdata/keys/vim");
    assert_eq!(get_styles_file("dark"), "gdata/styles/dark");
}

#[test]
fn split_at_tab_before_space() {
    assert_eq!(split_whitespace_once("a b\tc"), Some(("a b".to_string(), "c".to_string())));
    assert_eq!(split_whitespace_once("key  value "), Some(("key".to_string(), "value".to_string())));
    assert_eq!(split_whitespace_once("single"), None);
}

#[test]
fn wrap_breaks_after_last_blank() {
    assert_eq!(rows("hello world foo", 8), vec!["hello ", "world ", "foo"]);
    assert_eq!(rows("abcdefghij", 4), vec!["abcd", "efgh", "ij"]);
    assert_eq!(rows("short", 10), vec!["short"]);
    assert!(rows("", 5).is_empty());
}

#[test]
fn wrapped_rows_join_to_the_text() {
    for (text, width) in [("the quick brown fox jumps", 7), ("a  b   c", 2), ("no-blanks-here", 3), ("x", 1)] {
        let r = rows(text, width);
        assert_eq!(r.concat(), text);
        assert!(r.iter().all(|l| !l.is_empty()));
    }
}

#[test]
fn wide_characters_take_two_columns() {
    assert_eq!(rows("日本語です", 4), vec!["日本", "語で", "す"]);
}

#[test]
fn find_first_char() {
    let v = chars_of("abcabc");
    assert_eq!(find_char(&v, 'c'), Some(2));
    assert_eq!(find_char(&v, 'z'), None);
}

#[test]
fn trim_and_lines() {
    assert_eq!(trim(" \t x y \n"), "x y");
    assert_eq!(trim("   "), "");
    assert_eq!(lines("a\nb\r\nc\n"), vec!["a", "b", "c"]);
    assert_eq!(lines(""), Vec::<String>::new());
    assert!(str_eq("abc", "abc"));
    assert!(!str_eq("abc", "abd"));
}
