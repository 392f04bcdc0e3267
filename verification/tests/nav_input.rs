use hello_graphics::fw::game::nav::{
    get_nav, nav_down, nav_left, nav_right, nav_up, pack, unpack, GameNav, NavResult, NavState, Row,
};
use hello_graphics::game::input::{dispatch, GameDispatch, ModalAction};
use hello_graphics::menu::ButtonId;

#[test]
fn default_nav_is_bottom_right() {
    let s = NavState::new();
    assert_eq!(s.packed, 0b111);
    assert_eq!(get_nav(&s), GameNav { row: Row::Bottom, col: 3 });
}

#[test]
fn pack_unpack_layout() {
    assert_eq!(pack(&GameNav { row: Row::Bottom, col: 2 }), 0b110);
    assert_eq!(pack(&GameNav { row: Row::Top, col: 1 }), 0b001);
    assert_eq!(unpack(0b101), GameNav { row: Row::Bottom, col: 1 });
    for v in 0..8u8 {
        assert_eq!(pack(&unpack(v)), v);
    }
}

#[test]
fn moves_clamp_and_report_edge() {
    let mut s = NavState::new();
    nav_up(&mut s);
    assert_eq!(get_nav(&s), GameNav { row: Row::Top, col: 3 });
    assert_eq!(nav_right(&mut s), NavResult::NextScreen);
    assert_eq!(get_nav(&s), GameNav { row: Row::Top, col: 3 });
    for _ in 0..5 {
        nav_left(&mut s);
    }
    assert_eq!(get_nav(&s), GameNav { row: Row::Top, col: 0 });
    assert_eq!(nav_right(&mut s), NavResult::Moved);
    nav_down(&mut s);
    assert_eq!(get_nav(&s), GameNav { row: Row::Bottom, col: 1 });
}

#[test]
fn dispatch_routes_to_modal_when_open() {
    let mut s = NavState::new();
    let r = dispatch(&mut s, true, ButtonId::Cancel);
    assert_eq!(r, GameDispatch { consumed: true, modal: Some(ModalAction::Close) });
    let r = dispatch(&mut s, true, ButtonId::Execute);
    assert_eq!(r.modal, Some(ModalAction::Activate));
    let r = dispatch(&mut s, true, ButtonId::Left);
    assert_eq!(r, GameDispatch { consumed: true, modal: None });
    assert_eq!(s.packed, 0b111);
}

#[test]
fn dispatch_moves_cursor_and_opens_icon_modal() {
    let mut s = NavState::new();
    // Right at the grid edge is not consumed: the caller switches screen.
    assert!(!dispatch(&mut s, false, ButtonId::Right).consumed);
    assert!(dispatch(&mut s, false, ButtonId::Up).consumed);
    assert!(dispatch(&mut s, false, ButtonId::Left).consumed);
    let r = dispatch(&mut s, false, ButtonId::Fire);
    assert_eq!(r.modal, Some(ModalAction::Open { row: Row::Top, col: 2 }));
    assert!(dispatch(&mut s, false, ButtonId::Right).consumed);
    assert_eq!(dispatch(&mut s, false, ButtonId::Cancel), GameDispatch { consumed: true, modal: None });
}
