//! Protocol engine for a serial, line-oriented Bluetooth audio module.
//!
//! The library turns raw transport bytes into framed messages, decodes each
//! message into a typed [`indication::Indication`], and builds outbound
//! commands whose wire shape is enforced by type-state builders.  Transport
//! I/O, the display, and task plumbing live outside the library; everything
//! here is pure computation over bytes and strings.
use vstd::prelude::*;

pub mod app_state;
pub mod bytes;
pub mod command;
pub mod driver;
pub mod error;
pub mod framer;
pub mod gattdata;
pub mod indication;
pub mod numbers;
pub mod sppdata;
pub mod status;
pub mod text;
pub mod trackinfo;
pub mod trackstat;
