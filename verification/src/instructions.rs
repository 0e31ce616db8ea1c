pub mod alu;
pub mod branch;
pub mod load_store;
