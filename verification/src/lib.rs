//! Core of a small rendering engine: an offline shader compiler that lowers
//! shader source text into a deterministic word-stream artifact under a
//! build-mode policy, and the per-frame GPU protocol (acquire, render,
//! submit-or-cancel) expressed as a verified state machine. Platform glue
//! (window, device, event pump) lives outside this crate and feeds these
//! functions plain values.

pub mod batch;
pub mod codegen;
pub mod event;
pub mod frame;
pub mod package;
pub mod parse;
pub mod pipeline;
pub mod policy;
pub mod stage;
pub mod validate;
