//! Declarative materialization of targets.
//!
//! A target is a path that a command is expected to bring into existence. A
//! ledger remembers, apart from the target itself, whether that command was
//! seen to succeed for it. This library holds the rules: how a ledger entry is
//! named, how the state of a target is read from two probes, and which step
//! follows which while a target is reconciled. It touches no file and starts
//! no process; whoever drives it does, and reports back.
pub mod config;
pub mod default;
pub mod digest;
pub mod paths;
pub mod permanence;
pub mod tangible;
pub mod world;
