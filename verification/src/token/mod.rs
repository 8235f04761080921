pub mod types;
pub mod storage;
pub mod events;
pub mod contract;
pub mod laws;
pub mod outcomes;
