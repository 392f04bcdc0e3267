//! BornPets game logic.
pub mod debug_cheats;
pub mod engine;
pub mod friends;
pub mod friends_view;
pub mod input;
pub mod pet_select;
