//! Core of a NES emulator front-end driver: the cross-thread command set and
//! its dispatch rules, a single-producer/single-consumer command mailbox, the
//! frame-pacing arithmetic, the audio backpressure controller, and the debug
//! overlay compositor. Window, audio-device and file I/O live outside this
//! crate; everything here is pure logic over plain values.

pub mod backpressure;
pub mod compositor;
pub mod config;
pub mod color;
pub mod command;
pub mod driver;
pub mod frame;
pub mod mailbox;
pub mod pacer;
pub mod ui;

pub use color::Color;
pub use command::Message;
pub use config::NESConfig;
pub use mailbox::Mailbox;
