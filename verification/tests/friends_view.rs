use hello_graphics::game::friends_view::{friend_line, recently_boosted, scroll_indicator, since_str, visible_rows, FriendsView};

#[test]
fn open_scroll_close() {
    let mut v = FriendsView::new();
    assert!(!v.is_active());
    v.open();
    assert!(v.is_active());
    v.scroll_up();
    assert_eq!(v.scroll, 0);
    v.scroll_down(3);
    v.scroll_down(3);
    v.scroll_down(3);
    assert_eq!(v.scroll, 2);
    v.scroll_up();
    assert_eq!(v.scroll, 1);
    v.close();
    assert!(!v.is_active());
    v.open();
    assert_eq!(v.scroll, 0);
}

#[test]
fn since_formats_days_and_hours() {
    assert_eq!(since_str(0), "0d 0h");
    assert_eq!(since_str(359), "0d 0h");
    assert_eq!(since_str(360), "0d 1h");
    assert_eq!(since_str(360 * 25), "1d 1h");
    assert_eq!(since_str(360 * 24 * 12 + 360 * 23), "12d 23h");
}

#[test]
fn rows_boost_and_indicator() {
    assert_eq!(visible_rows(10, 0), 4);
    assert_eq!(visible_rows(10, 8), 2);
    assert_eq!(visible_rows(0, 0), 0);
    assert!(recently_boosted(1000, 0));
    assert!(!recently_boosted(1440, 0));
    assert!(recently_boosted(5, 100));
    assert_eq!(scroll_indicator(0, 4), None);
    assert_eq!(scroll_indicator(2, 12).as_deref(), Some("3/12"));
}

#[test]
fn friend_lines_fill_whole_pieces() {
    assert_eq!(friend_line("Rex", "Cat", "1d 2h"), "Rex (Cat) - 1d 2h");
    assert_eq!(friend_line("", "Cat", "0d 5h"), "Cat - 0d 5h");
    // 12 + 2 + 10 = 24 bytes fit; ") - " would make 28, then the time does not fit.
    assert_eq!(friend_line("Bartholomeus", "Unicornish", "3d 4h"), "Bartholomeus (Unicornish) - ");
    // The kind does not fit whole: the line stops after " (".
    assert_eq!(friend_line("Bartholomeus", "Unicornishesses", "3d 4h"), "Bartholomeus (");
    assert_eq!(friend_line("Bartholomeus", "Unicornishes", "3d 4h"), "Bartholomeus (Unicornishes");
    // A name longer than the line leaves it empty.
    assert_eq!(friend_line("abcdefghijklmnopqrstuvwxyz0123", "Cat", "0d 0h"), "");
}
