//! A generic CRUD backend: model families derived from one record description,
//! the contracts that bind them to a store, and the HTTP shape of each operation.

pub mod animal;
pub mod car;
pub mod contract;
pub mod controller;
pub mod entity;
pub mod generator;
pub mod migrations;
pub mod router;
pub mod schema;
pub mod server;
pub mod service;
pub mod store;
