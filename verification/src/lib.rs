//! Classical density functional theory (DFT) solver for micelle density
//! profiles in a surfactant-solvent mixture, with a search for the critical
//! micelle concentration (CMC).
//!
//! All physical quantities are carried in reduced units as fixed-point
//! integers (see the `fixed` module). The bulk equation of state and the
//! weighted-density convolution machinery are consumed through narrow
//! capability interfaces, so the solver core can run against any
//! thermodynamic model.

pub mod axis;
pub mod bulk;
pub mod capability;
pub mod error;
pub mod field;
pub mod fixed;
pub mod gauss;
pub mod micelle;
pub mod profile;
pub mod specification;
