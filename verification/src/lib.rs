//! Verified core of a small 2D-simulation toolkit: the error types and the
//! checked/saturating arithmetic vocabulary shared by physical quantities,
//! signed adjustments (`Delta`), and the integer logic of a terminal
//! desktop (top menu bar, icon grid, ASCII-art cell buffer).

pub mod ascii_art;
pub mod desktop;
pub mod error;
pub mod layout;
pub mod ops;
pub mod shell;
pub mod topbar;
pub mod traits;

pub use error::{CalculationError, ValidationError};
