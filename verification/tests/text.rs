use php_gateway::text::{find_char, names_match, to_lower, to_upper};

#[test]
fn case_is_changed_for_ascii_letters_only() {
    assert_eq!(to_lower('A'), 'a');
    assert_eq!(to_lower('Z'), 'z');
    assert_eq!(to_lower('a'), 'a');
    assert_eq!(to_lower('@'), '@');
    assert_eq!(to_lower('['), '[');
    assert_eq!(to_lower('É'), 'É');
    assert_eq!(to_upper('a'), 'A');
    assert_eq!(to_upper('z'), 'Z');
    assert_eq!(to_upper('Q'), 'Q');
    assert_eq!(to_upper('`'), '`');
    assert_eq!(to_upper('{'), '{');
    assert_eq!(to_upper('é'), 'é');
    assert_eq!(to_upper('-'), '-');
}

#[test]
fn names_match_but_for_case() {
    assert!(names_match("Content-Type", "content-type"));
    assert!(names_match("HOST", "host"));
    assert!(names_match("", ""));
    assert!(!names_match("host", "hosts"));
    assert!(!names_match("host", "hose"));
    assert!(!names_match("x-a", "x_a"));
}

#[test]
fn find_char_gives_the_first_place() {
    assert_eq!(find_char("a:b:c", ':'), Some(1));
    assert_eq!(find_char(":", ':'), Some(0));
    assert_eq!(find_char("abc", ':'), None);
    assert_eq!(find_char("", ':'), None);
    assert_eq!(find_char("é:x", ':'), Some(1));
}
