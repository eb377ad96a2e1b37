//! Outbound ports (what a store must do) and the use cases that drive them.
pub mod ports;
pub mod usecases;
