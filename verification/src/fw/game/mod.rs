//! Game-screen navigation state.
pub mod nav;
