//! Pet selection screen — shown before hatching to choose a pet kind.
//!
//! Displayed full-screen when the player starts a new game or a new
//! generation, in two phases:
//!   1. `PHASE_PET`   — Up/Down cycle through the roster of pet kinds
//!                      (wrapping), Fire advances to the money phase.
//!   2. `PHASE_MONEY` — Up/Down toggle "With Hacks" / "Without Hacks",
//!                      Fire starts the game with the chosen pet kind and
//!                      money mode, then closes the screen.
//! Money mode is chosen fresh every time, defaulting to "With Hacks".
use vstd::prelude::*;

verus! {

pub const MODE_NEW_GAME: u8 = 0;
pub const MODE_NEW_GEN: u8 = 1;
pub const PHASE_PET: u8 = 0;
pub const PHASE_MONEY: u8 = 1;

/// The selection screen's state.
#[derive(Clone, Copy, PartialEq, Eq, Structural, Debug)]
pub struct PetSelect {
    pub active: bool,
    /// Cursor within the current phase's list: a roster index in
    /// `PHASE_PET`, 0 ("With Hacks") or 1 ("Without Hacks") in `PHASE_MONEY`.
    pub selection: u8,
    /// What to do after selection: `MODE_NEW_GAME` or `MODE_NEW_GEN`.
    pub mode: u8,
    pub phase: u8,
    /// The roster index chosen in `PHASE_PET`.
    pub chosen_kind_idx: u8,
}

/// How the game is to be started.
#[derive(Clone, Copy, PartialEq, Eq, Structural, Debug)]
pub enum StartMode {
    NewGame,
    NewGeneration,
}

/// The start request produced by the final confirmation.
#[derive(Clone, Copy, PartialEq, Eq, Structural, Debug)]
pub struct StartRequest {
    pub mode: StartMode,
    /// Roster index of the chosen kind; `None` when the index is outside the
    /// roster, meaning the default kind.
    pub kind_idx: Option<u8>,
    pub money_enabled: bool,
}

/// The other option of the two-item money list.
pub open spec fn spec_toggle(s: u8) -> u8 {
    if s == 0 {
        1
    } else {
        0
    }
}

impl PetSelect {
    /// Closed, on the pet phase, cursor at the top.
    pub fn new() -> (p: PetSelect)
        ensures
            p == (PetSelect {
                active: false,
                selection: 0,
                mode: MODE_NEW_GAME,
                phase: PHASE_PET,
                chosen_kind_idx: 0,
            }),
    {
        PetSelect {
            active: false,
            selection: 0,
            mode: MODE_NEW_GAME,
            phase: PHASE_PET,
            chosen_kind_idx: 0,
        }
    }

    pub fn is_active(&self) -> (b: bool)
        ensures
            b == self.active,
    {
        self.active
    }

    /// Open the pet selection screen for a brand new game.
    pub fn open_new_game(&mut self)
        ensures
            *final(self) == (PetSelect {
                selection: 0,
                phase: PHASE_PET,
                mode: MODE_NEW_GAME,
                active: true,
                ..*old(self)
            }),
    {
        self.selection = 0;
        self.phase = PHASE_PET;
        self.mode = MODE_NEW_GAME;
        self.active = true;
    }

    /// Open the pet selection screen for a new generation.
    pub fn open_new_generation(&mut self)
        ensures
            *final(self) == (PetSelect {
                selection: 0,
                phase: PHASE_PET,
                mode: MODE_NEW_GEN,
                active: true,
                ..*old(self)
            }),
    {
        self.selection = 0;
        self.phase = PHASE_PET;
        self.mode = MODE_NEW_GEN;
        self.active = true;
    }

    pub fn close(&mut self)
        ensures
            *final(self) == (PetSelect { active: false, ..*old(self) }),
    {
        self.active = false;
    }

    /// Up: toggles in the money phase; otherwise moves up the roster of
    /// `roster_len` kinds, wrapping from the top to the last kind.
    pub fn cursor_up(&mut self, roster_len: u8)
        ensures
            *final(self) == (PetSelect {
                selection: if old(self).phase == PHASE_MONEY {
                    spec_toggle(old(self).selection)
                } else if old(self).selection > 0 {
                    (old(self).selection - 1) as u8
                } else if roster_len > 0 {
                    (roster_len - 1) as u8
                } else {
                    old(self).selection
                },
                ..*old(self)
            }),
    {
        if self.phase == PHASE_MONEY {
            let s = self.selection;
            self.selection = if s == 0 {
                1
            } else {
                0
            };
            return ;
        }
        let s = self.selection;
        if s > 0 {
            self.selection = s - 1;
        } else {
            let max = roster_len;
            if max > 0 {
                self.selection = max - 1;
            }
        }
    }

    /// Down: toggles in the money phase; otherwise moves down the roster of
    /// `roster_len` kinds, wrapping from the last kind to the top.
    pub fn cursor_down(&mut self, roster_len: u8)
        requires
            old(self).phase != PHASE_MONEY ==> old(self).selection < 255,
        ensures
            *final(self) == (PetSelect {
                selection: if old(self).phase == PHASE_MONEY {
                    spec_toggle(old(self).selection)
                } else if old(self).selection + 1 < roster_len {
                    (old(self).selection + 1) as u8
                } else if roster_len > 0 {
                    0
                } else {
                    old(self).selection
                },
                ..*old(self)
            }),
    {
        if self.phase == PHASE_MONEY {
            let s = self.selection;
            self.selection = if s == 0 {
                1
            } else {
                0
            };
            return ;
        }
        let s = self.selection;
        let max = roster_len;
        if s + 1 < max {
            self.selection = s + 1;
        } else if max > 0 {
            self.selection = 0;
        }
    }

    /// Confirm the current phase.
    ///
    /// In the pet phase, stashes the chosen roster index and advances to the
    /// money phase (defaulting to "With Hacks") without closing.  Otherwise
    /// resolves the kind chosen earlier and the money flag into a start
    /// request (none for an unknown mode), resets to the pet phase and closes.
    pub fn confirm(&mut self, roster_len: u8) -> (req: Option<StartRequest>)
        ensures
            old(self).phase == PHASE_PET ==> req is None && *final(self) == (PetSelect {
                chosen_kind_idx: old(self).selection,
                phase: PHASE_MONEY,
                selection: 0,
                ..*old(self)
            }),
            old(self).phase != PHASE_PET ==> {
                &&& *final(self) == (PetSelect {
                    phase: PHASE_PET,
                    active: false,
                    ..*old(self)
                })
                &&& req == if old(self).mode == MODE_NEW_GAME || old(self).mode == MODE_NEW_GEN {
                    Some(
                        StartRequest {
                            mode: if old(self).mode == MODE_NEW_GAME {
                                StartMode::NewGame
                            } else {
                                StartMode::NewGeneration
                            },
                            kind_idx: if old(self).chosen_kind_idx < roster_len {
                                Some(old(self).chosen_kind_idx)
                            } else {
                                None
                            },
                            money_enabled: old(self).selection == 0,
                        },
                    )
                } else {
                    None
                }
            },
    {
        if self.phase == PHASE_PET {
            let idx = self.selection;
            self.chosen_kind_idx = idx;
            self.phase = PHASE_MONEY;
            self.selection = 0;
            return None;
        }
        let money_enabled = self.selection == 0;
        let idx = self.chosen_kind_idx;
        let kind_idx = if idx < roster_len {
            Some(idx)
        } else {
            None
        };
        let mode = self.mode;
        let req = if mode == MODE_NEW_GAME {
            Some(StartRequest { mode: StartMode::NewGame, kind_idx, money_enabled })
        } else if mode == MODE_NEW_GEN {
            Some(StartRequest { mode: StartMode::NewGeneration, kind_idx, money_enabled })
        } else {
            None
        };
        self.phase = PHASE_PET;
        self.close();
        req
    }
}

/// On a non-empty roster the pet cursor stays on a kind: Up and Down keep a
/// selection inside the roster inside it.
pub proof fn lemma_cursor_in_roster(p: PetSelect, roster_len: u8)
    requires
        p.phase == PHASE_PET,
        0 < roster_len,
        p.selection < roster_len,
    ensures
        (if p.selection > 0 {
            p.selection - 1
        } else {
            roster_len - 1
        }) < roster_len,
        (if p.selection + 1 < roster_len {
            p.selection + 1
        } else {
            0
        }) < roster_len,
{
}

} // verus!
