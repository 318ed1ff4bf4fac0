//! What holds of every run of every workflow.

pub mod agreement;
pub mod decisions;
pub mod detachment;
pub mod duplicates;
pub mod gate;
pub mod reconciliation;
pub mod refusal;
pub mod saving;
