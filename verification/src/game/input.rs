//! BornPets game-screen input routing.
//!
//! [`dispatch`] is the single entry point for all button events while the
//! game screen is active.  It decides whether a modal is open or not, and
//! routes accordingly.  A result that is not `consumed` tells the caller
//! that the event should be forwarded to the menu.
use vstd::prelude::*;
use crate::fw::game::nav::{get_nav, nav_down, nav_left, nav_right, nav_up, GameNav, NavResult, NavState, Row};
use crate::menu::ButtonId;

verus! {

/// What the modal layer is asked to do for a press.
#[derive(Clone, Copy, PartialEq, Eq, Structural, Debug)]
pub enum ModalAction {
    Close,
    CursorUp,
    CursorDown,
    Activate,
    /// Open the modal belonging to the icon at this grid position.
    Open { row: Row, col: u8 },
}

/// The routing decision for one press.
#[derive(Clone, Copy, PartialEq, Eq, Structural, Debug)]
pub struct GameDispatch {
    /// `true` if the game layer consumed the event.
    pub consumed: bool,
    /// The modal operation to perform, if any.
    pub modal: Option<ModalAction>,
}

/// The routing of a press while a modal is open.
pub open spec fn spec_modal_action(btn: ButtonId) -> Option<ModalAction> {
    match btn {
        ButtonId::Cancel => Some(ModalAction::Close),
        ButtonId::Up => Some(ModalAction::CursorUp),
        ButtonId::Down => Some(ModalAction::CursorDown),
        ButtonId::Fire | ButtonId::Execute => Some(ModalAction::Activate),
        ButtonId::Left | ButtonId::Right => None,
    }
}

/// With a modal open, the joystick's vertical direction is the direction
/// the modal cursor is asked to move, Cancel closes the modal, Fire and
/// Execute activate its entry, and Left/Right ask nothing of it.
pub proof fn lemma_modal_follows_buttons(btn: ButtonId)
    ensures
        btn == ButtonId::Up <==> spec_modal_action(btn) == Some(ModalAction::CursorUp),
        btn == ButtonId::Down <==> spec_modal_action(btn) == Some(ModalAction::CursorDown),
        btn == ButtonId::Cancel <==> spec_modal_action(btn) == Some(ModalAction::Close),
        (btn == ButtonId::Fire || btn == ButtonId::Execute) <==> spec_modal_action(btn) == Some(
            ModalAction::Activate,
        ),
        (btn == ButtonId::Left || btn == ButtonId::Right) <==> spec_modal_action(btn) is None,
{
}

/// Route a button press on the game screen.
///
/// With a modal open every press is consumed and handed to the modal.
/// Otherwise the joystick moves the icon cursor; `Right` at the grid edge
/// is not consumed (the caller advances to the next screen); Fire/Execute
/// open the focused icon's modal; Cancel is swallowed.
pub fn dispatch(nav: &mut NavState, modal_open: bool, btn: ButtonId) -> (r: GameDispatch)
    ensures
        modal_open ==> r == (GameDispatch { consumed: true, modal: spec_modal_action(btn) })
            && *final(nav) == *old(nav),
        !modal_open && btn == ButtonId::Up ==> r == (GameDispatch { consumed: true, modal: None })
            && final(nav)@ == (GameNav { row: Row::Top, col: old(nav)@.col }),
        !modal_open && btn == ButtonId::Down ==> r == (GameDispatch { consumed: true, modal: None })
            && final(nav)@ == (GameNav { row: Row::Bottom, col: old(nav)@.col }),
        !modal_open && btn == ButtonId::Left ==> r == (GameDispatch { consumed: true, modal: None })
            && final(nav)@ == (GameNav {
                row: old(nav)@.row,
                col: if old(nav)@.col > 0 { (old(nav)@.col - 1) as u8 } else { 0u8 },
            }),
        !modal_open && btn == ButtonId::Right ==> r.modal is None && (if old(nav)@.col < 3 {
            r.consumed && final(nav)@ == (GameNav {
                row: old(nav)@.row,
                col: (old(nav)@.col + 1) as u8,
            })
        } else {
            !r.consumed && *final(nav) == *old(nav)
        }),
        !modal_open && (btn == ButtonId::Fire || btn == ButtonId::Execute) ==> r == (GameDispatch {
            consumed: true,
            modal: Some(ModalAction::Open { row: old(nav)@.row, col: old(nav)@.col }),
        }) && *final(nav) == *old(nav),
        !modal_open && btn == ButtonId::Cancel ==> r == (GameDispatch {
            consumed: true,
            modal: None,
        }) && *final(nav) == *old(nav),
{
    if modal_open {
        let modal = match btn {
            ButtonId::Cancel => Some(ModalAction::Close),
            ButtonId::Up => Some(ModalAction::CursorUp),
            ButtonId::Down => Some(ModalAction::CursorDown),
            ButtonId::Fire | ButtonId::Execute => Some(ModalAction::Activate),
            ButtonId::Left | ButtonId::Right => None,
        };
        GameDispatch { consumed: true, modal }
    } else {
        match btn {
            ButtonId::Up => {
                nav_up(nav);
                GameDispatch { consumed: true, modal: None }
            },
            ButtonId::Down => {
                nav_down(nav);
                GameDispatch { consumed: true, modal: None }
            },
            ButtonId::Left => {
                nav_left(nav);
                GameDispatch { consumed: true, modal: None }
            },
            ButtonId::Right => {
                let moved = match nav_right(nav) {
                    NavResult::Moved => true,
                    NavResult::NextScreen => false,
                };
                GameDispatch { consumed: moved, modal: None }
            },
            ButtonId::Fire | ButtonId::Execute => {
                let n = get_nav(nav);
                GameDispatch { consumed: true, modal: Some(ModalAction::Open { row: n.row, col: n.col }) }
            },
            ButtonId::Cancel => GameDispatch { consumed: true, modal: None },
        }
    }
}

} // verus!
