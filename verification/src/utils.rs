//! Building blocks shared by the services.

pub mod app_message;
pub mod clock;
pub mod hash_password;
pub mod identifier;
pub mod money;
pub mod search;
pub mod tabela_frete;
pub mod text;
