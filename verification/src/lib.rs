//! Verified core of a wrist-worn media remote.
//!
//! The crate holds the decisions of the device: the wall clock that is
//! reconstructed from a host time sample and the device uptime, the
//! application state machine, the single-peer bond store, and the parsing
//! and framing of the messages exchanged with the host. Radio, display and
//! peripheral drivers live outside of it and exchange plain values with it.

pub mod advertising;
pub mod app;
pub mod ble;
pub mod bond;
pub mod clock;
pub mod display;
pub mod event_loop;
pub mod gatt_client;
pub mod interface;
pub mod media;
pub mod panic_message;
pub mod text;
pub mod timer;
pub mod touch;

pub use app::App;
