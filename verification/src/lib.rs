//! Secure file exchange: per-user RSA key material, hybrid (RSA + AES-256-CBC)
//! sealing of file payloads, password- and time-bounded share links, and the
//! sweep that retires expired links together with their payloads.

pub mod db;
pub mod dtos;
pub mod error;
pub mod filtering;
pub mod handler;
pub mod models;
pub mod trusted;
pub mod utils;
pub mod laws;
pub mod middleware;
