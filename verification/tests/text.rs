use simple_faas_docker::text::{chars_of, count_char, find_first, find_last, same_text, starts_with};

#[test]
fn chars_are_handed_out_in_order() {
    assert_eq!(chars_of("aü/"), vec!['a', 'ü', '/']);
    assert_eq!(chars_of(""), Vec::<char>::new());
}

#[test]
fn occurrences_are_counted() {
    assert_eq!(count_char(&chars_of("ghcr.io/library/hello-world"), '/'), 2);
    assert_eq!(count_char(&chars_of("hello-world"), '/'), 0);
    assert_eq!(count_char(&chars_of("///"), '/'), 3);
    assert_eq!(count_char(&chars_of(""), '/'), 0);
}

#[test]
fn first_and_last_occurrence_are_found() {
    let chars = chars_of("a:b:c");
    assert_eq!(find_first(&chars, ':'), Some(1));
    assert_eq!(find_last(&chars, ':'), Some(3));
    assert_eq!(find_first(&chars, '@'), None);
    assert_eq!(find_last(&chars, '@'), None);
    assert_eq!(find_first(&chars_of(":"), ':'), Some(0));
    assert_eq!(find_last(&chars_of(":"), ':'), Some(0));
    assert_eq!(find_last(&chars_of(""), ':'), None);
}

#[test]
fn prefixes_are_recognised() {
    assert!(starts_with(&chars_of("https://ghcr.io"), &chars_of("https://")));
    assert!(!starts_with(&chars_of("https://ghcr.io"), &chars_of("http://")));
    assert!(!starts_with(&chars_of("http"), &chars_of("http://")));
    assert!(starts_with(&chars_of("anything"), &chars_of("")));
}

#[test]
fn texts_are_compared_by_their_characters() {
    assert!(same_text("ghcr.io", "ghcr.io"));
    assert!(!same_text("ghcr.io", "ghcr.i0"));
    assert!(!same_text("ghcr.io", "ghcr.io/"));
    assert!(same_text("", ""));
}
