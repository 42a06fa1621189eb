//! Daily solar-energy statistics for telemetry sensors, and the plain
//! decisions of the service around them.

pub mod api;
pub mod auth;
pub mod energy;
pub mod laws;
pub mod models;
pub mod outside;
pub mod result;
pub mod routes;
pub mod web;
