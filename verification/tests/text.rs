use automatic_triage::text::any_contains;

fn names(list: &[&str]) -> Vec<String> {
    list.iter().map(|s| s.to_string()).collect()
}

#[test]
fn fragment_is_found_in_any_name() {
    let list = names(&["a-foo", "i-triaged-by-team", "e-needs-mcve"]);
    assert!(any_contains(&list, "triaged"));
    assert!(any_contains(&list, "a-foo"));
    assert!(any_contains(&list, "mcve"));
    assert!(any_contains(&list, "e"));
    assert!(!any_contains(&list, "triagedd"));
    assert!(!any_contains(&list, "foo-a"));
}

#[test]
fn fragment_is_matched_with_its_case() {
    let list = names(&["I-Triaged"]);
    assert!(any_contains(&list, "Triaged"));
    assert!(!any_contains(&list, "triaged"));
}

#[test]
fn fragment_does_not_span_names() {
    let list = names(&["ab", "cd"]);
    assert!(!any_contains(&list, "bc"));
    assert!(!any_contains(&list, "abcd"));
}

#[test]
fn empty_fragment_is_in_every_name_and_in_no_list_without_names() {
    assert!(any_contains(&names(&["x"]), ""));
    assert!(any_contains(&names(&[""]), ""));
    assert!(!any_contains(&names(&[]), ""));
    assert!(!any_contains(&names(&[]), "x"));
    assert!(!any_contains(&names(&[""]), "x"));
}
