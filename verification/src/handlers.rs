pub mod admin;
pub mod api;
pub mod webhook;
