//! Order creation for a store backend: a cart is priced against the catalog,
//! turned into the records of one order, and reconciled with the inventory.
//! Around it stand the rules that a new customer's data must meet, and what
//! the service decides when a customer registers or signs in.
//! Every function carries a contract that Verus proves.

pub mod configs;
pub mod dal;
pub mod db;
pub mod middlewares;
pub mod models;
pub mod services;
pub mod utils;
pub mod validations;
