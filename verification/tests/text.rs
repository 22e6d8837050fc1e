use feishu_notifier::text::{bytes_eq, text_eq};

#[test]
fn text_eq_compares_whole_texts() {
    assert!(text_eq("", ""));
    assert!(text_eq("true", "true"));
    assert!(text_eq("查看详情", "查看详情"));
    assert!(!text_eq("true", "tru"));
    assert!(!text_eq("tru", "true"));
    assert!(!text_eq("true", "trua"));
    assert!(!text_eq("true", "True"));
    assert!(!text_eq("", " "));
    assert!(!text_eq("é", "e\u{301}"));
}

#[test]
fn bytes_eq_compares_lengths_and_bytes() {
    assert!(bytes_eq(&[], &[]));
    assert!(bytes_eq(&[1, 2, 3], &[1, 2, 3]));
    assert!(!bytes_eq(&[1, 2, 3], &[1, 2]));
    assert!(!bytes_eq(&[1, 2, 3], &[1, 2, 4]));
    assert!(!bytes_eq(&[0, 2, 3], &[1, 2, 3]));
}
