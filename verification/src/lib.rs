//! Token verification and a resilient access layer for a remote
//! counter store, with the decisions of both stated as contracts.

pub mod auth;
pub mod clock;
pub mod config;
pub mod flows;
pub mod ids;
pub mod jwt;
pub mod keyed;
pub mod model;
pub mod remote;
pub mod routes;
pub mod stats;
pub mod supabase;
pub mod text;
pub mod types;
