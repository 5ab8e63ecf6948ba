//! The rules of a self-hosted monitor for a fleet of machines.
//!
//! Agents report to a server, which stores what they report, keeps an account of their traffic,
//! sends alerts and shows the fleet. This crate decides; reading and writing the database,
//! serving HTTP and sending messages is left to its callers.

pub mod agents;
pub mod api;
pub mod auth;
pub mod config;
pub mod db;
pub mod figure;
pub mod laws;
pub mod moment;
pub mod notify;
pub mod reply;
pub mod text;
