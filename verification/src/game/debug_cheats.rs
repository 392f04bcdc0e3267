//! Hidden debug/cheat sequence.
//!
//! Lets a developer jump straight to the weight/diabetes states for
//! testing.  Entered by pressing a fixed button sequence while idle on the
//! main game screen:
//!
//! Up, Up, Down, Down, Left, Right, Left, Right, Fire.
use vstd::prelude::*;
use crate::menu::ButtonId;

verus! {

/// Number of presses in the cheat sequence.
pub const SEQUENCE_LEN: usize = 9;

/// Step `i` of the cheat sequence.
pub open spec fn spec_sequence(i: int) -> ButtonId {
    if i == 0 || i == 1 {
        ButtonId::Up
    } else if i == 2 || i == 3 {
        ButtonId::Down
    } else if i == 4 || i == 6 {
        ButtonId::Left
    } else if i == 5 || i == 7 {
        ButtonId::Right
    } else {
        ButtonId::Fire
    }
}

/// The whole cheat sequence.
pub open spec fn spec_sequence_seq() -> Seq<ButtonId> {
    Seq::new(SEQUENCE_LEN as nat, |i: int| spec_sequence(i))
}

/// Step `i` of the cheat sequence.
pub fn sequence_step(i: usize) -> (b: ButtonId)
    requires
        i < SEQUENCE_LEN,
    ensures
        b == spec_sequence(i as int),
{
    if i <= 1 {
        ButtonId::Up
    } else if i <= 3 {
        ButtonId::Down
    } else if i == 4 || i == 6 {
        ButtonId::Left
    } else if i == 5 || i == 7 {
        ButtonId::Right
    } else {
        ButtonId::Fire
    }
}

/// How many correct presses in a row have been made so far.
pub struct CheatProgress {
    count: u8,
}

impl CheatProgress {
    /// Presses matched so far, always below [`SEQUENCE_LEN`].
    pub closed spec fn matched(&self) -> nat {
        self.count as nat
    }

    /// Progress is always strictly inside the sequence.
    #[verifier::type_invariant]
    closed spec fn wf(&self) -> bool {
        self.count < SEQUENCE_LEN
    }

    /// No correct presses yet.
    pub fn new() -> (p: CheatProgress)
        ensures
            p.matched() == 0,
    {
        CheatProgress { count: 0 }
    }

    /// Presses matched so far.
    pub fn matched_count(&self) -> (n: u8)
        ensures
            n == self.matched(),
            n < SEQUENCE_LEN,
    {
        proof {
            use_type_invariant(self);
        }
        self.count
    }
}

/// Progress and result of one press, from progress `p`.
pub open spec fn spec_feed(p: nat, btn: ButtonId) -> (nat, bool) {
    if btn == spec_sequence(p as int) {
        if p + 1 == SEQUENCE_LEN {
            (0, true)
        } else {
            ((p + 1) as nat, false)
        }
    } else if btn == spec_sequence(0) {
        (1, false)
    } else {
        (0, false)
    }
}

/// Feed one button press into the sequence tracker.
///
/// Returns `true` the instant the full sequence completes (progress starts
/// over).  Returns `false` otherwise, including every partial-progress
/// press.  A wrong button restarts the sequence, but counts as step one if
/// it is the sequence's first button.
pub fn feed(progress: &mut CheatProgress, btn: ButtonId) -> (done: bool)
    ensures
        (final(progress).matched(), done) == spec_feed(old(progress).matched(), btn),
        final(progress).matched() < SEQUENCE_LEN,
{
    proof {
        use_type_invariant(&*progress);
    }
    let p = progress.count as usize;
    if btn == sequence_step(p) {
        let next = p + 1;
        if next == SEQUENCE_LEN {
            progress.count = 0;
            return true;
        }
        progress.count = next as u8;
    } else {
        let restart: u8 = if btn == sequence_step(0) { 1 } else { 0 };
        progress.count = restart;
    }
    false
}

/// Progress and the result of the last press after feeding `presses` in
/// order, starting from progress `p` (the result is `false` for no press).
pub open spec fn spec_feed_all(p: nat, presses: Seq<ButtonId>) -> (nat, bool)
    decreases presses.len(),
{
    if presses.len() == 0 {
        (p, false)
    } else {
        let (q, _) = spec_feed_all(p, presses.drop_last());
        spec_feed(q, presses.last())
    }
}

/// From no progress, feeding the first `k` steps of the sequence (`k` below
/// the full length) leaves progress `k` and never reports completion.
pub proof fn lemma_partial_sequence(k: nat)
    requires
        k < SEQUENCE_LEN,
    ensures
        spec_feed_all(0, spec_sequence_seq().take(k as int)) == (k, false),
    decreases k,
{
    if k > 0 {
        let s = spec_sequence_seq().take(k as int);
        assert(s.drop_last() =~= spec_sequence_seq().take(k - 1));
        lemma_partial_sequence((k - 1) as nat);
    }
}

/// From no progress, feeding the whole sequence reports completion on the
/// last press, and progress starts over.
pub proof fn lemma_full_sequence()
    ensures
        spec_feed_all(0, spec_sequence_seq()) == (0nat, true),
{
    lemma_partial_sequence(8);
    assert(spec_sequence_seq().drop_last() =~= spec_sequence_seq().take(8));
}

/// Completion is reported only on the final step (Fire) of a run of eight
/// correct presses.
pub proof fn lemma_true_only_at_end(p: nat, btn: ButtonId)
    requires
        p < SEQUENCE_LEN,
    ensures
        spec_feed(p, btn).1 ==> p == 8 && btn == ButtonId::Fire,
        spec_feed(p, btn).0 < SEQUENCE_LEN,
{
}

} // verus!
