pub mod dto;
pub mod laws;
pub mod memory;
pub mod repository;
pub mod service;
pub mod store;
mod sources;
pub mod task;
