use hello_graphics::game::pet_select::{PetSelect, StartMode, PHASE_MONEY, PHASE_PET};

/// Roster size used by these tests.
const ROSTER_LEN: u8 = 4;

#[test]
fn cursor_wraps_at_both_ends() {
    let mut p = PetSelect::new();
    let max = ROSTER_LEN;
    p.phase = PHASE_PET;
    p.selection = 0;

    p.cursor_up(ROSTER_LEN);
    assert_eq!(p.selection, max - 1);

    p.cursor_down(ROSTER_LEN);
    assert_eq!(p.selection, 0);
}

#[test]
fn money_phase_cursor_toggles_between_two_options() {
    let mut p = PetSelect::new();
    p.phase = PHASE_MONEY;
    p.selection = 0;

    p.cursor_down(ROSTER_LEN);
    assert_eq!(p.selection, 1);

    p.cursor_down(ROSTER_LEN);
    assert_eq!(p.selection, 0);

    p.cursor_up(ROSTER_LEN);
    assert_eq!(p.selection, 1);
}

#[test]
fn confirm_advances_pet_phase_to_money_phase() {
    let mut p = PetSelect::new();
    p.open_new_game();
    assert_eq!(p.phase, PHASE_PET);
    assert!(p.is_active());

    assert!(p.confirm(ROSTER_LEN).is_none());

    assert!(p.is_active());
    assert_eq!(p.phase, PHASE_MONEY);
}

#[test]
fn full_flow_money_off_starts_game_without_money() {
    let mut p = PetSelect::new();
    p.open_new_game();
    assert!(p.confirm(ROSTER_LEN).is_none()); // pet phase (selection 0) -> money phase

    assert_eq!(p.phase, PHASE_MONEY);
    p.selection = 1; // "Without Hacks"
    let req = p.confirm(ROSTER_LEN).unwrap();

    assert_eq!(req.mode, StartMode::NewGame);
    assert!(!req.money_enabled);
    assert!(!p.is_active());
}

#[test]
fn full_flow_money_on_starts_game_with_money() {
    let mut p = PetSelect::new();
    p.open_new_game();
    assert!(p.confirm(ROSTER_LEN).is_none()); // pet phase -> money phase, default selection 0

    assert_eq!(p.phase, PHASE_MONEY);
    assert_eq!(p.selection, 0); // "With Hacks" default
    let req = p.confirm(ROSTER_LEN).unwrap();

    assert!(req.money_enabled);
    assert_eq!(req.kind_idx, Some(0));
}

#[test]
fn new_generation_flow_carries_the_chosen_kind() {
    let mut p = PetSelect::new();
    p.open_new_generation();
    p.cursor_down(ROSTER_LEN);
    p.cursor_down(ROSTER_LEN);
    assert!(p.confirm(ROSTER_LEN).is_none());
    assert_eq!(p.chosen_kind_idx, 2);
    let req = p.confirm(ROSTER_LEN).unwrap();
    assert_eq!(req.mode, StartMode::NewGeneration);
    assert_eq!(req.kind_idx, Some(2));
    assert_eq!(p.phase, PHASE_PET);
}

#[test]
fn kind_outside_the_roster_falls_back_to_default() {
    let mut p = PetSelect::new();
    p.open_new_game();
    p.selection = 9;
    p.confirm(ROSTER_LEN);
    assert_eq!(p.confirm(ROSTER_LEN).unwrap().kind_idx, None);
}

#[test]
fn unknown_mode_starts_nothing_but_closes() {
    let mut p = PetSelect::new();
    p.open_new_game();
    p.mode = 7;
    p.confirm(ROSTER_LEN);
    assert_eq!(p.confirm(ROSTER_LEN), None);
    assert!(!p.is_active());
}

#[test]
fn empty_roster_keeps_cursor() {
    let mut p = PetSelect::new();
    p.open_new_game();
    p.cursor_up(0);
    assert_eq!(p.selection, 0);
    p.cursor_down(0);
    assert_eq!(p.selection, 0);
}
