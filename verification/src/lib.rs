pub mod boundary;
pub mod config;
pub mod domain;
pub mod laws;
pub mod memory;
pub mod ports;
pub mod service;
pub mod validate;
