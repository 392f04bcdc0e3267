//! Firmware-side logic: the parts of the drivers that compute rather than
//! talk to hardware.
pub mod ble;
pub mod buzzer;
pub mod config;
pub mod device_id;
pub mod flash;
pub mod game;
pub mod lock;
pub mod meshcore;
pub mod nfct;
pub mod sponsors;
