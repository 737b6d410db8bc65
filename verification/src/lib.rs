//! Verified core of the local Kanban service: colour validation, issue search
//! query construction, identifier handling, workflow decisions and first-boot data.

pub mod api;
pub mod bootstrap;
pub mod color;
pub mod errors;
pub mod ids;
pub mod issues;
pub mod jwt;
pub mod models;
pub mod priority;
pub mod relationship;
pub mod search;
pub mod sqltext;
pub mod text;
pub mod time;
pub mod workflow;
