//! Display animation state — determines what the pet area should show.
//!
//! Priority (highest wins):
//!   1. Gone (pet has left)
//!   2. Hibernating
//!   3. Hatching (egg animation)
//!   4. Active action (feeding, healing, relaxing, playing, sleeping)
//!   5. Leaving (countdown warning, with urgency level)
//!   6. Untreated diabetes
//!   7. Critical stat (urgent distress — needs immediate action)
//!   8. Warning stat (attention needed soon — not yet critical)
//!   9. Idle / Happy (pet is content)
use vstd::prelude::*;
use super::state::{Action, GameState, Phase, Thresholds};

verus! {

/// What the pet display area should show right now.
#[derive(Clone, Copy, PartialEq, Eq, Structural, Debug)]
pub enum DisplayAnim {
    /// Pet has left permanently.
    Gone,
    /// All progression frozen.
    Hibernating,
    /// Egg is hatching.  `ticks_remaining` counts down to zero.
    Hatching { ticks_remaining: u16 },
    Feeding,
    Healing,
    Relaxing,
    Playing,
    Sleeping,
    Exercising,
    Medicating,
    /// Pet is about to leave.  `maxed_count` indicates urgency.
    Leaving { maxed_count: u8 },
    /// Diabetic and medication has lapsed.
    DiabetesUntreated,
    CriticalSick,
    CriticalTired,
    CriticalHungry,
    CriticalDrained,
    CriticalOverweight,
    WarningSick,
    WarningTired,
    WarningHungry,
    WarningDrained,
    WarningMiserable,
    WarningOverweight,
    /// Pet is happy (all stats well below warning thresholds).
    Happy,
    /// Default resting state.
    Idle,
}

/// 1 if `b` holds, else 0.
pub open spec fn indicator(b: bool) -> int {
    if b { 1 } else { 0 }
}

/// Number of the four needs (hunger, tiredness, drain, sickness) at their maximum.
pub open spec fn spec_count_maxed(s: GameState, t: Thresholds) -> int {
    indicator(s.hunger == t.stat_max) + indicator(s.tired == t.stat_max) + indicator(
        s.drained == t.stat_max,
    ) + indicator(s.sick == t.stat_max)
}

/// Count of maxed stats.
pub fn count_maxed(state: &GameState, t: &Thresholds) -> (n: u8)
    ensures
        n == spec_count_maxed(*state, *t),
        n <= 4,
{
    let a: u8 = if state.hunger == t.stat_max { 1 } else { 0 };
    let b: u8 = if state.tired == t.stat_max { 1 } else { 0 };
    let c: u8 = if state.drained == t.stat_max { 1 } else { 0 };
    let d: u8 = if state.sick == t.stat_max { 1 } else { 0 };
    a + b + c + d
}

/// The animation of an active action.
pub open spec fn spec_action_anim(a: Action) -> DisplayAnim {
    match a {
        Action::Feed => DisplayAnim::Feeding,
        Action::Heal => DisplayAnim::Healing,
        Action::Relax => DisplayAnim::Relaxing,
        Action::Play => DisplayAnim::Playing,
        Action::Exercise => DisplayAnim::Exercising,
        Action::Medicate => DisplayAnim::Medicating,
    }
}

/// All five negative stats are below half their warning thresholds.
pub open spec fn spec_is_happy(s: GameState, t: Thresholds) -> bool {
    &&& s.hunger < t.warning_hunger / 2
    &&& s.tired < t.warning_tired / 2
    &&& s.drained < t.warning_drained / 2
    &&& s.sick < t.warning_sick / 2
    &&& s.miserable < t.warning_miserable / 2
}

/// The priority ladder: the first state that applies wins.
pub open spec fn spec_display_anim(s: GameState, t: Thresholds) -> DisplayAnim {
    if s.phase == Phase::Gone {
        DisplayAnim::Gone
    } else if s.hibernating {
        DisplayAnim::Hibernating
    } else if s.phase == Phase::Hatching {
        DisplayAnim::Hatching { ticks_remaining: s.hatching_countdown }
    } else if s.active_action is Some {
        spec_action_anim(s.active_action->0)
    } else if s.is_sleeping {
        DisplayAnim::Sleeping
    } else if s.phase == Phase::Leaving {
        DisplayAnim::Leaving { maxed_count: spec_count_maxed(s, t) as u8 }
    } else if s.diabetic && s.cooldown_medicate == 0 {
        DisplayAnim::DiabetesUntreated
    } else if s.sick > t.sick_trigger_tired {
        DisplayAnim::CriticalSick
    } else if s.tired > t.sick_trigger_tired {
        DisplayAnim::CriticalTired
    } else if s.hunger > t.sick_trigger_hunger {
        DisplayAnim::CriticalHungry
    } else if s.drained > t.sick_trigger_drained {
        DisplayAnim::CriticalDrained
    } else if s.weight > t.overweight_trigger {
        DisplayAnim::CriticalOverweight
    } else if s.sick > t.warning_sick {
        DisplayAnim::WarningSick
    } else if s.tired > t.warning_tired {
        DisplayAnim::WarningTired
    } else if s.hunger > t.warning_hunger {
        DisplayAnim::WarningHungry
    } else if s.drained > t.warning_drained {
        DisplayAnim::WarningDrained
    } else if s.miserable > t.warning_miserable {
        DisplayAnim::WarningMiserable
    } else if s.weight > t.warning_weight {
        DisplayAnim::WarningOverweight
    } else if spec_is_happy(s, t) {
        DisplayAnim::Happy
    } else {
        DisplayAnim::Idle
    }
}

impl GameState {
    /// Determine which animation the display area should show: a cheap
    /// read-only lookup along the priority ladder.
    pub fn display_anim(&self, t: &Thresholds) -> (a: DisplayAnim)
        ensures
            a == spec_display_anim(*self, *t),
    {
        if self.phase == Phase::Gone {
            return DisplayAnim::Gone;
        }
        if self.hibernating {
            return DisplayAnim::Hibernating;
        }
        if self.phase == Phase::Hatching {
            return DisplayAnim::Hatching { ticks_remaining: self.hatching_countdown };
        }
        if let Some(action) = self.active_action {
            return match action {
                Action::Feed => DisplayAnim::Feeding,
                Action::Heal => DisplayAnim::Healing,
                Action::Relax => DisplayAnim::Relaxing,
                Action::Play => DisplayAnim::Playing,
                Action::Exercise => DisplayAnim::Exercising,
                Action::Medicate => DisplayAnim::Medicating,
            };
        }
        if self.is_sleeping {
            return DisplayAnim::Sleeping;
        }
        if self.phase == Phase::Leaving {
            return DisplayAnim::Leaving { maxed_count: count_maxed(self, t) };
        }
        if self.diabetic && self.cooldown_medicate == 0 {
            return DisplayAnim::DiabetesUntreated;
        }
        if self.sick > t.sick_trigger_tired {
            return DisplayAnim::CriticalSick;
        }
        if self.tired > t.sick_trigger_tired {
            return DisplayAnim::CriticalTired;
        }
        if self.hunger > t.sick_trigger_hunger {
            return DisplayAnim::CriticalHungry;
        }
        if self.drained > t.sick_trigger_drained {
            return DisplayAnim::CriticalDrained;
        }
        if self.weight > t.overweight_trigger {
            return DisplayAnim::CriticalOverweight;
        }
        if self.sick > t.warning_sick {
            return DisplayAnim::WarningSick;
        }
        if self.tired > t.warning_tired {
            return DisplayAnim::WarningTired;
        }
        if self.hunger > t.warning_hunger {
            return DisplayAnim::WarningHungry;
        }
        if self.drained > t.warning_drained {
            return DisplayAnim::WarningDrained;
        }
        if self.miserable > t.warning_miserable {
            return DisplayAnim::WarningMiserable;
        }
        if self.weight > t.warning_weight {
            return DisplayAnim::WarningOverweight;
        }
        if self.hunger < t.warning_hunger / 2 && self.tired < t.warning_tired / 2 && self.drained
            < t.warning_drained / 2 && self.sick < t.warning_sick / 2 && self.miserable
            < t.warning_miserable / 2 {
            return DisplayAnim::Happy;
        }
        DisplayAnim::Idle
    }
}

/// The pet is in its ordinary state: alive, awake, not hibernating, busy
/// with nothing, and not suffering untreated diabetes.
pub open spec fn ordinary(s: GameState) -> bool {
    &&& s.phase == Phase::Alive
    &&& !s.hibernating
    &&& s.active_action is None
    &&& !s.is_sleeping
    &&& !(s.diabetic && s.cooldown_medicate == 0)
}

/// No stat is above its critical trigger.
pub open spec fn nothing_critical(s: GameState, t: Thresholds) -> bool {
    &&& s.sick <= t.sick_trigger_tired
    &&& s.tired <= t.sick_trigger_tired
    &&& s.hunger <= t.sick_trigger_hunger
    &&& s.drained <= t.sick_trigger_drained
    &&& s.weight <= t.overweight_trigger
}

/// For an ordinary pet with nothing critical, each stat above its warning
/// threshold shows its own warning unless a warning ranked higher (sick,
/// tired, hungry, drained, miserable, overweight) applies; a pet with any
/// warning stat is never shown happy or idle, and one with none is.
pub proof fn lemma_warnings_shown(s: GameState, t: Thresholds)
    requires
        ordinary(s),
        nothing_critical(s, t),
    ensures
        s.sick > t.warning_sick ==> spec_display_anim(s, t) == DisplayAnim::WarningSick,
        s.sick <= t.warning_sick && s.tired > t.warning_tired ==> spec_display_anim(s, t)
            == DisplayAnim::WarningTired,
        s.sick <= t.warning_sick && s.tired <= t.warning_tired && s.hunger > t.warning_hunger
            ==> spec_display_anim(s, t) == DisplayAnim::WarningHungry,
        s.sick <= t.warning_sick && s.tired <= t.warning_tired && s.hunger <= t.warning_hunger
            && s.drained > t.warning_drained ==> spec_display_anim(s, t) == DisplayAnim::WarningDrained,
        s.sick <= t.warning_sick && s.tired <= t.warning_tired && s.hunger <= t.warning_hunger
            && s.drained <= t.warning_drained && s.miserable > t.warning_miserable
            ==> spec_display_anim(s, t) == DisplayAnim::WarningMiserable,
        s.sick <= t.warning_sick && s.tired <= t.warning_tired && s.hunger <= t.warning_hunger
            && s.drained <= t.warning_drained && s.miserable <= t.warning_miserable && s.weight
            > t.warning_weight ==> spec_display_anim(s, t) == DisplayAnim::WarningOverweight,
        (s.sick > t.warning_sick || s.tired > t.warning_tired || s.hunger > t.warning_hunger
            || s.drained > t.warning_drained || s.miserable > t.warning_miserable || s.weight
            > t.warning_weight) <==> !(spec_display_anim(s, t) == DisplayAnim::Happy
            || spec_display_anim(s, t) == DisplayAnim::Idle),
{
}

/// A departed pet always shows as gone, whatever else holds.
pub proof fn lemma_gone_wins(s: GameState, t: Thresholds)
    requires
        s.phase == Phase::Gone,
    ensures
        spec_display_anim(s, t) == DisplayAnim::Gone,
{
}

/// A leaving pet's urgency counts at most the four needs.
pub proof fn lemma_leaving_urgency_bounded(s: GameState, t: Thresholds)
    ensures
        spec_display_anim(s, t) matches DisplayAnim::Leaving { maxed_count } ==> maxed_count <= 4,
{
}

/// The pet is shown happy only when no critical or warning state applies and
/// every stat is below half its warning threshold.
pub proof fn lemma_happy_means_content(s: GameState, t: Thresholds)
    requires
        spec_display_anim(s, t) == DisplayAnim::Happy,
    ensures
        spec_is_happy(s, t),
        s.sick <= t.warning_sick,
        s.weight <= t.warning_weight,
        s.phase == Phase::Alive,
        !s.hibernating,
        s.active_action is None,
        !s.is_sleeping,
{
}

} // verus!
