use hello_graphics::toast::{truncate_message, ToastSlot, TOAST_LEN};

#[test]
fn show_replaces_and_dismiss_clears() {
    let mut t = ToastSlot::new();
    assert!(!t.is_active());
    assert_eq!(t.text(), None);
    t.show("added Quick test at 19:42");
    assert!(t.is_active());
    assert_eq!(t.text(), Some("added Quick test at 19:42"));
    t.show("second");
    assert_eq!(t.text(), Some("second"));
    t.dismiss();
    assert!(!t.is_active());
}

#[test]
fn long_message_is_truncated_to_capacity() {
    let msg = "x".repeat(60);
    let s = truncate_message(&msg);
    assert_eq!(s.as_str(), &msg[..TOAST_LEN]);
}

#[test]
fn truncation_keeps_whole_characters() {
    // 47 ASCII bytes then a two-byte character: only 47 bytes fit.
    let msg = format!("{}é", "a".repeat(47));
    let s = truncate_message(&msg);
    assert_eq!(s.as_str(), "a".repeat(47));
    // A later character that would fit is not taken after the first miss.
    let msg = format!("{}éb", "a".repeat(47));
    assert_eq!(truncate_message(&msg).as_str(), "a".repeat(47));
    assert_eq!(truncate_message("Æ").as_str(), "Æ");
}
