//! The data the services exchange, each type with its mathematical view.

pub mod categoria;
pub mod cliente;
pub mod login;
pub mod pedido;
pub mod produto;
