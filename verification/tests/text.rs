use step_registry::text::{append_decimal, append_joined, append_joined_strings};

#[test]
fn parts_are_joined_with_the_separator_between() {
    let mut out = String::from("x: ");
    append_joined(&mut out, &vec!["a", "b", "c"], ", ");
    assert_eq!(out, "x: a, b, c");
    let mut out = String::new();
    append_joined(&mut out, &vec![], ", ");
    assert_eq!(out, "");
    append_joined(&mut out, &vec!["one"], ", ");
    assert_eq!(out, "one");
    let mut out = String::new();
    append_joined(&mut out, &vec!["", ""], "-");
    assert_eq!(out, "-");
}

#[test]
fn owned_parts_are_joined_alike() {
    let mut out = String::from("[");
    append_joined_strings(&mut out, &vec!["a".to_string(), "b".to_string()], "; ");
    assert_eq!(out, "[a; b");
    let mut out = String::new();
    append_joined_strings(&mut out, &vec![], "; ");
    assert_eq!(out, "");
}

#[test]
fn numbers_are_written_in_decimal() {
    for n in [0usize, 1, 9, 10, 11, 99, 100, 101, 4096, 65535, usize::MAX] {
        let mut out = String::from("n=");
        append_decimal(&mut out, n);
        assert_eq!(out, format!("n={}", n));
    }
}
