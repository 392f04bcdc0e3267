use hello_graphics::menu::{
    label_boost_rx, menu_row, DisplayState, MenuAction, MenuItem, MenuItemKind, MenuLabel, RowContent,
    ScreenState,
};

static MELODY_ITEMS: [MenuItem; 4] = [
    MenuItem { label: MenuLabel::Text("< Back"), kind: MenuItemKind::Back },
    MenuItem { label: MenuLabel::Text("Startup"), kind: MenuItemKind::Action(MenuAction::Melody(0)) },
    MenuItem { label: MenuLabel::Text("Rickroll"), kind: MenuItemKind::Action(MenuAction::Melody(1)) },
    MenuItem { label: MenuLabel::Text("Imp. March"), kind: MenuItemKind::Action(MenuAction::Melody(2)) },
];

static SETTINGS_ITEMS: [MenuItem; 5] = [
    MenuItem { label: MenuLabel::Text("< Back"), kind: MenuItemKind::Back },
    MenuItem { label: MenuLabel::BoostRx, kind: MenuItemKind::Action(MenuAction::BoostRx) },
    MenuItem { label: MenuLabel::Text(""), kind: MenuItemKind::Separator },
    MenuItem { label: MenuLabel::Text("Reset channels"), kind: MenuItemKind::Action(MenuAction::ResetChannels) },
    MenuItem { label: MenuLabel::Text("Reset contacts"), kind: MenuItemKind::Action(MenuAction::ResetContacts) },
];

static MAIN_ITEMS: [MenuItem; 4] = [
    MenuItem { label: MenuLabel::Text("Bornagotchi"), kind: MenuItemKind::Action(MenuAction::Nothing) },
    MenuItem { label: MenuLabel::Text("Play melodies"), kind: MenuItemKind::Submenu(&MELODY_ITEMS) },
    MenuItem { label: MenuLabel::Text(""), kind: MenuItemKind::Separator },
    MenuItem { label: MenuLabel::Text("Settings"), kind: MenuItemKind::Submenu(&SETTINGS_ITEMS) },
];

static LORA_ITEMS: [MenuItem; 1] =
    [MenuItem { label: MenuLabel::Text("LoRa"), kind: MenuItemKind::Action(MenuAction::Nothing) }];

#[test]
fn down_skips_separator_and_stops_at_end() {
    let mut s = ScreenState::new(&MAIN_ITEMS);
    s.menu_down();
    assert_eq!(s.current_pos(), 1);
    s.menu_down();
    assert_eq!(s.current_pos(), 3);
    s.menu_down();
    assert_eq!(s.current_pos(), 3);
    s.menu_up();
    assert_eq!(s.current_pos(), 1);
    s.menu_up();
    assert_eq!(s.current_pos(), 0);
    s.menu_up();
    assert_eq!(s.current_pos(), 0);
}

#[test]
fn fire_enters_submenu_and_back_returns() {
    let mut s = ScreenState::new(&MAIN_ITEMS);
    s.menu_down();
    assert_eq!(s.fire(), None);
    assert_eq!(s.current_items().len(), 4);
    assert_eq!(s.current_pos(), 0);
    assert_eq!(s.get_current_label(false), Some("< Back"));
    s.menu_down();
    assert_eq!(s.fire(), Some(MenuAction::Melody(0)));
    s.menu_up();
    assert_eq!(s.fire(), None); // Back
    assert_eq!(s.current_pos(), 1);
    assert_eq!(s.get_current_label(false), Some("Play melodies"));
}

#[test]
fn labels_follow_boost_setting() {
    assert_eq!(label_boost_rx(true), "Boost RX: ON");
    assert_eq!(label_boost_rx(false), "Boost RX: OFF");
    let mut s = ScreenState::new(&MAIN_ITEMS);
    s.menu_down();
    s.menu_down();
    s.fire();
    assert_eq!(s.get_label(1, true), Some("Boost RX: ON"));
    assert_eq!(s.get_label(5, true), None);
    // Inside settings: Down from "Boost RX" skips the separator.
    s.menu_down();
    s.menu_down();
    assert_eq!(s.current_pos(), 3);
}

#[test]
fn carousel_clamps_and_routes_to_current_screen() {
    let mut d = DisplayState::new([ScreenState::new(&MAIN_ITEMS), ScreenState::new(&LORA_ITEMS)]);
    d.screen_left();
    assert_eq!(d.active_screen(), 0);
    d.menu_down();
    assert_eq!(d.get_current_menu_item(false), Some("Play melodies"));
    d.screen_right();
    d.screen_right();
    assert_eq!(d.active_screen(), 1);
    assert_eq!(d.get_current_menu_item(false), Some("LoRa"));
    assert_eq!(d.fire(), Some(MenuAction::Nothing));
    d.screen_left();
    assert_eq!(d.get_menu_item(3, false), Some("Settings"));
    assert_eq!(d.current_screen().current_pos(), 1);
}

#[test]
fn rendered_rows() {
    match menu_row(&MAIN_ITEMS, 0, 0, false) {
        RowContent::Empty => {}
        _ => panic!("row above the first item is empty"),
    }
    match menu_row(&MAIN_ITEMS, 0, 2, false) {
        RowContent::Label(s) => assert_eq!(s, "Play melodies >"),
        _ => panic!("submenu label expected"),
    }
    match menu_row(&MAIN_ITEMS, 1, 2, false) {
        RowContent::Rule => {}
        _ => panic!("separator renders as a rule"),
    }
    match menu_row(&MAIN_ITEMS, 3, 1, false) {
        RowContent::Label(s) => assert_eq!(s, "Settings >"),
        _ => panic!("submenu label expected"),
    }
    match menu_row(&MAIN_ITEMS, 3, 2, false) {
        RowContent::Empty => {}
        _ => panic!("row below the last item is empty"),
    }
}

static LONG_ITEMS: [MenuItem; 2] = [
    MenuItem { label: MenuLabel::Text("abcdefghijklmnopqrstuvw"), kind: MenuItemKind::Submenu(&LORA_ITEMS) },
    MenuItem { label: MenuLabel::Text("abcdefghijklmnopqrstuvwxyz"), kind: MenuItemKind::Back },
];

#[test]
fn long_labels_follow_the_capacity() {
    // 23 bytes: the " >" marker no longer fits.
    match menu_row(&LONG_ITEMS, 0, 1, false) {
        RowContent::Label(s) => assert_eq!(s, "abcdefghijklmnopqrstuvw"),
        _ => panic!(),
    }
    // 26 bytes: the label does not fit at all.
    match menu_row(&LONG_ITEMS, 1, 1, false) {
        RowContent::Label(s) => assert_eq!(s, ""),
        _ => panic!(),
    }
}
