//! A USB device-side control-transfer engine for endpoint 0.
//!
//! The library parses standard setup packets, tracks the device's
//! enumeration state (`Default` → `Addressed` → `Configured`), and decides
//! how each hardware event on endpoint 0 is answered. Reading the
//! peripheral's registers and performing the chosen response belong to the
//! surrounding firmware; the engine itself works on plain values only.

pub mod dispatch;
pub mod fault;
pub mod request;
pub mod state;
