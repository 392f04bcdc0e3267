//! Verified core logic of the Cyber Ægg badge firmware: menu and overlay
//! state machines, the BornPets game rules, the friend-discovery wire
//! formats and the byte-level codecs used by the flash, NFC and BLE code.
pub mod codec;
pub mod date_picker;
pub mod fw;
pub mod game;
pub mod menu;
pub mod text;
pub mod toast;
