//! The stored rows of each resource and their write forms.

pub mod animal;
pub mod car;
