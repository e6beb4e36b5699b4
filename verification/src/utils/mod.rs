//! Key material and the hybrid cipher.

pub mod decrypt;
pub mod encrypt;
pub mod keys;
