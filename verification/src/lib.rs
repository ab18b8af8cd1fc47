//! Core logic of a screen-shield session: a full-screen overlay is released
//! either by holding an on-screen control for a fixed time, by pressing a
//! configured keyboard chord, or by an optional wall-clock countdown.
//!
//! Everything here is pure decision logic over plain values: the platform
//! layer reads clocks and input events and hands them in as integers and
//! booleans, and carries the returned decisions out.

pub mod chord;
pub mod countdown;
pub mod duration;
pub mod hold;
pub mod interceptor;
pub mod session;
