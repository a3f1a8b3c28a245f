//! Presence tracking for a shared space.
//!
//! Members plan visits, check in and check out. The library holds the
//! rules: what an update does to the visit table and when it is worth
//! announcing, which records a query lists, what the retention sweep
//! deletes, when the live status announcement is edited, what a command or
//! a pressed button asks for, and how the answers read. Reading the clock,
//! talking to the database and to the messaging platform is left to the
//! program around it, which hands the library plain values and carries out
//! what it decides.

pub mod announce;
pub mod backend;
pub mod bot;
pub mod calendar;
pub mod config;
pub mod day;
pub mod laws;
pub mod live_status;
pub mod render;
pub mod rest_api;
pub mod text;
pub mod utils;
pub mod visits;

pub use config::Config;
pub use visits::{Visit, VisitStatus, Visits};
