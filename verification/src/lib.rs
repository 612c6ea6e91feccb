//! Request decisions, payload building and value formatting for a smart-account
//! wallet bundler, with their contracts proved by Verus.

pub mod errors;
pub mod text;
pub mod eth;
pub mod models;
pub mod contracts;
pub mod auth;
pub mod admin;
pub mod wallet;
pub mod listener;
pub mod laws;
