//! Control core of a nixie-tube digital clock.
//!
//! The library is built from small, separately specified pieces:
//!
//! * [`debouncer`] — a leaky-integrator filter that turns a noisy raw input
//!   into a stable boolean with hysteresis;
//! * [`shift_register`] — the serial output chain that carries packed digit
//!   bytes to the display elements;
//! * [`nixie_display`] — the display-mode state machine (time / date / year)
//!   and the digit multiplexing encoder;
//! * [`color`] — transcoding between `#rrggbb` colour strings and 24-bit
//!   colour codes;
//! * [`config`] — the typed settings model, its field validation, and the
//!   cached configuration store;
//! * [`codec`] — the byte record a configuration is persisted as;
//! * [`controller`] — the per-iteration decisions of the control loop;
//! * [`storage`] — the raw key-value persistence capability and an in-memory
//!   implementation of it;
//! * [`sim`] — recording and scripted implementations of the hardware
//!   capabilities, for driving the core without hardware.
//!
//! Hardware is reached only through the narrow capability traits in
//! [`signal`], [`shift_register`] and [`storage`]; production code wires
//! hardware-backed implementations while tests wire the fakes from [`sim`].

pub mod signal;
pub mod debouncer;
pub mod shift_register;
pub mod sim;
pub mod nixie_display;
pub mod color;
pub mod config;
pub mod storage;
pub mod codec;
pub mod controller;
