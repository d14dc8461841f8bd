//! The rules that submitted data must meet.

pub mod cliente_validations;
