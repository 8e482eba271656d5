//! Driver model for a microcontroller's analog-to-digital converter subsystem,
//! together with the flash-page address map and a thin radio container.
//!
//! The hardware register file is represented as a plain-data model: every
//! register effect of the driver is an explicit, specified transition on that
//! model, and the busy-wait points are where the modeled peripheral completes
//! the operation the driver requested.

pub mod adc;
pub mod flash;
pub mod ratio;
pub mod sx126x;
