//! Verified core of a LAN remote control for the MuMu Android emulator:
//! the video packet format, the pairing records and protocol decisions,
//! the input event decisions and the control panel state.

pub mod net;
pub mod text;
pub mod pairing;
pub mod pairing_service;
pub mod capture;
pub mod encoder;
pub mod mumu;
pub mod input;
pub mod adb;
pub mod runtime_config;
pub mod stream;
pub mod panel;
pub mod qr;
