//! A small user service: pooled storage access for one resource, with the
//! decisions of each request (validation, lease discipline, failure
//! normalisation, response shaping) stated and proved.

pub mod bridge;
pub mod config;
pub mod error;
pub mod laws;
pub mod models;
pub mod schema;
