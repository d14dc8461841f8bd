//! The services: what the store decides and computes.

pub mod cliente_service;
pub mod home_service;
pub mod pedido_pipeline;
pub mod pedido_service;
pub mod produto_service;
