use cds_badge::text::{chars_of, find_text};

fn chars(s: &str) -> Vec<char> {
    s.chars().collect()
}

#[test]
fn characters_of_a_text() {
    assert_eq!(chars_of(""), Vec::<char>::new());
    assert_eq!(chars_of("abc"), vec!['a', 'b', 'c']);
    assert_eq!(chars_of("é枝"), vec!['é', '枝']);
}

#[test]
fn first_occurrence() {
    assert_eq!(find_text(&chars("a/tree/b/tree/c"), &chars("/tree/")), Some(1));
    assert_eq!(find_text(&chars("/tree/"), &chars("/tree/")), Some(0));
    assert_eq!(find_text(&chars("/tree"), &chars("/tree/")), None);
    assert_eq!(find_text(&chars(""), &chars("/tree/")), None);
    assert_eq!(find_text(&chars("abc"), &chars("")), Some(0));
    assert_eq!(find_text(&chars(""), &chars("")), Some(0));
    assert_eq!(find_text(&chars("aab"), &chars("ab")), Some(1));
    assert_eq!(find_text(&chars("xyz"), &chars("z")), Some(2));
}
