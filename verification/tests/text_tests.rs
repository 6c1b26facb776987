use console::text::{same_text, trim_end_slashes};

#[test]
fn trim_removes_every_trailing_slash() {
    assert_eq!(trim_end_slashes("http://192.168.200.2:8082///"), "http://192.168.200.2:8082");
    assert_eq!(trim_end_slashes("http://host/api/"), "http://host/api");
}

#[test]
fn trim_keeps_text_without_trailing_slash() {
    assert_eq!(trim_end_slashes("http://host:8082"), "http://host:8082");
    assert_eq!(trim_end_slashes("a/b"), "a/b");
}

#[test]
fn trim_edge_cases() {
    assert_eq!(trim_end_slashes(""), "");
    assert_eq!(trim_end_slashes("///"), "");
    assert_eq!(trim_end_slashes("/x/"), "/x");
}

#[test]
fn trim_is_idempotent() {
    let once = trim_end_slashes("http://h//");
    assert_eq!(trim_end_slashes(&once), once);
}

#[test]
fn trim_ignores_an_added_slash() {
    assert_eq!(trim_end_slashes("http://h/"), trim_end_slashes("http://h"));
}

#[test]
fn trim_handles_non_ascii() {
    assert_eq!(trim_end_slashes("http://höst—/"), "http://höst—");
}

#[test]
fn same_text_compares_whole_texts() {
    assert!(same_text("Nodes", "Nodes"));
    assert!(!same_text("Nodes", "Node"));
    assert!(!same_text("Nodes", "nodes"));
    assert!(same_text("", ""));
    assert!(!same_text("é", "e"));
}
