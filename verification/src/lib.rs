//! Routing and message building for forwarding Sentry alerts to Feishu group bots.

pub mod cli;
pub mod commands;
pub mod config;
pub mod db;
pub mod handlers;
pub mod models;
pub mod services;
pub mod text;
