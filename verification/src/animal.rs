//! The animal resource.

pub mod controller;
pub mod models;
pub mod routes;
pub mod service;
