//! Coordination logic for two small desktop gadgets: a daemon that keeps the
//! input-method engine in step with keyboard gestures, window focus and a
//! local control channel, and a tool that moves between virtual workspaces.
//!
//! Everything here is pure decision logic. Talking to the keyboard hook, the
//! window manager, sockets and subprocesses is left to the caller, which feeds
//! plain values in and carries the decided actions out.

pub mod keys;
pub mod decimal;
pub mod pattern;
pub mod workspace;
pub mod switching;
pub mod engine;
pub mod gesture;
pub mod pending;
pub mod control;
pub mod focus;
pub mod switcher;
pub mod history;
pub mod listing;
