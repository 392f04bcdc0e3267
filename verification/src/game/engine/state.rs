//! The pet's game state and the stat thresholds the display ladder uses.
use vstd::prelude::*;

verus! {

/// Maximum length of a pet name, in bytes.
pub const PET_NAME_MAX: usize = 12;

/// Life phase of the pet.
#[derive(Clone, Copy, PartialEq, Eq, Structural, Debug)]
pub enum Phase {
    /// The egg is hatching.
    Hatching,
    /// The pet lives normally.
    Alive,
    /// The pet is about to leave.
    Leaving,
    /// The pet has left permanently.
    Gone,
}

/// A care action in progress.
#[derive(Clone, Copy, PartialEq, Eq, Structural, Debug)]
pub enum Action {
    Feed,
    Heal,
    Relax,
    Play,
    Exercise,
    Medicate,
}

/// The stat thresholds of the game balance.
#[derive(Clone, Copy, PartialEq, Eq, Structural, Debug)]
pub struct Thresholds {
    /// The value of a maxed stat.
    pub stat_max: u16,
    /// Above this, sickness or tiredness is critical.
    pub sick_trigger_tired: u16,
    /// Above this, hunger is critical.
    pub sick_trigger_hunger: u16,
    /// Above this, drain is critical.
    pub sick_trigger_drained: u16,
    /// Above this, weight is critical.
    pub overweight_trigger: u16,
    pub warning_sick: u16,
    pub warning_tired: u16,
    pub warning_hunger: u16,
    pub warning_drained: u16,
    pub warning_miserable: u16,
    pub warning_weight: u16,
}

/// The pet's state.
#[derive(Clone, Copy, PartialEq, Eq, Structural, Debug)]
pub struct GameState {
    pub phase: Phase,
    /// All progression frozen.
    pub hibernating: bool,
    /// Ticks left until the egg hatches.
    pub hatching_countdown: u16,
    pub active_action: Option<Action>,
    pub is_sleeping: bool,
    pub diabetic: bool,
    /// Ticks of medication left; 0 means it has lapsed.
    pub cooldown_medicate: u16,
    pub hunger: u16,
    pub tired: u16,
    pub drained: u16,
    pub sick: u16,
    pub miserable: u16,
    pub weight: u16,
}

} // verus!
