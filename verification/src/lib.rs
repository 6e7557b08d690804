pub mod ident;
pub mod laws;
pub mod record;
pub mod service;
pub mod store;
