//! Driver for an ST-Link debug probe.
//!
//! The probe speaks a fixed binary command protocol over a synchronous
//! transport (a USB channel in practice).  This crate covers the protocol
//! logic: command framing, status validation, version and capability
//! negotiation, communication-speed negotiation across two hardware
//! generations, Access Port session caching for DAP register transfers,
//! and the operating-mode state machine.  The raw transport is consumed
//! through the [`transport::Transport`] trait and is not part of the
//! verified logic.

pub mod codec;
pub mod constants;
pub mod error;
pub mod flash;
pub mod stlink;
pub mod transport;
