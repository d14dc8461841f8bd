//! What is stored: the records of an order, the inventory, and customers.

pub mod cliente_dal;
pub mod inventory;
pub mod pedido_dal;
pub mod produto_dal;
