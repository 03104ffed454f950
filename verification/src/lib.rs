//! A personal brag-document tracker: timestamped accomplishment entries that a
//! client can create, list and delete.
//!
//! The crate holds the decisions of the service. The network and the durable
//! store are driven by the caller, which hands each outcome to the functions
//! here and sends what they return.

pub mod api;
mod clock;
pub mod db;
pub mod errors;
pub mod laws;
pub mod models;
pub mod repository;
pub mod service;
pub mod table;
