//! A small authenticated content-management backend: editors register, log
//! in, and manage the articles they own. The store keeps the two entity
//! tables, the actions are the request handlers, and every operation carries
//! a contract describing exactly what it returns and how it changes the
//! store.

pub mod models;
pub mod payloads;
pub mod hashing;
pub mod store;
pub mod responses;
pub mod actions;
pub mod laws;
