//! What holds of the program as a whole, proved from the contracts of its parts.

pub mod choices;
pub mod creation;
pub mod deletion;
pub mod exclusion;
pub mod names;
pub mod paths;
pub mod program;
pub mod questions;
pub mod reading;
pub mod records;
pub mod removal;
pub mod selection;
pub mod stability;
pub mod status;
pub mod steps;
pub mod texts;
pub mod views;
