use hello_graphics::game::debug_cheats::{feed, sequence_step, CheatProgress, SEQUENCE_LEN};
use hello_graphics::menu::ButtonId;

fn sequence() -> Vec<ButtonId> {
    (0..SEQUENCE_LEN).map(sequence_step).collect()
}

#[test]
fn full_sequence_returns_true_once() {
    let mut progress = CheatProgress::new();
    let mut result = false;
    for &btn in &sequence() {
        result = feed(&mut progress, btn);
    }
    assert!(result, "the final press of the correct sequence should return true");
}

#[test]
fn wrong_button_resets_progress() {
    let mut progress = CheatProgress::new();
    let seq = sequence();
    assert!(!feed(&mut progress, ButtonId::Up));
    assert!(!feed(&mut progress, ButtonId::Up));
    // Wrong button here — breaks the sequence.
    assert!(!feed(&mut progress, ButtonId::Fire));
    // Now replay the whole thing; should still need all 9 presses.
    for &btn in &seq[..seq.len() - 1] {
        assert!(!feed(&mut progress, btn));
    }
    assert!(feed(&mut progress, *seq.last().unwrap()));
}

#[test]
fn partial_progress_never_returns_true_early() {
    let mut progress = CheatProgress::new();
    let seq = sequence();
    for &btn in &seq[..seq.len() - 1] {
        assert!(!feed(&mut progress, btn));
    }
}

#[test]
fn sequence_is_the_documented_combo() {
    assert_eq!(
        sequence(),
        vec![
            ButtonId::Up,
            ButtonId::Up,
            ButtonId::Down,
            ButtonId::Down,
            ButtonId::Left,
            ButtonId::Right,
            ButtonId::Left,
            ButtonId::Right,
            ButtonId::Fire
        ]
    );
}

#[test]
fn wrong_button_that_starts_the_sequence_counts_as_step_one() {
    let mut progress = CheatProgress::new();
    assert!(!feed(&mut progress, ButtonId::Up));
    assert!(!feed(&mut progress, ButtonId::Up));
    // Up where Down was expected: restart, but this Up counts as step one.
    assert!(!feed(&mut progress, ButtonId::Up));
    assert_eq!(progress.matched_count(), 1);
    assert!(!feed(&mut progress, ButtonId::Left));
    assert_eq!(progress.matched_count(), 0);
}

#[test]
fn sequence_completes_twice_in_a_row() {
    let mut progress = CheatProgress::new();
    for _ in 0..2 {
        let seq = sequence();
        for (i, &btn) in seq.iter().enumerate() {
            assert_eq!(feed(&mut progress, btn), i == seq.len() - 1);
        }
    }
}
