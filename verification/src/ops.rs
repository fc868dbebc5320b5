//! Generic arithmetic traits shared across quantities.
//!
//! Checked traits return `None` instead of an invalid value. Saturating traits
//! clamp into range instead. `Delta` gives a signed representation of
//! non-negative quantities.

pub mod checked;
pub mod delta;
pub mod saturating;

pub use checked::{CheckedAdd, CheckedDiv, CheckedMul, CheckedSub};
pub use delta::Delta;
pub use saturating::{SaturatingAdd, SaturatingSub};
