//! Verified core of the hbp web site: error values, data models, markdown
//! header parsing, access decisions, sign-up and sign-in rules, and the
//! routing tables that the server mounts.

pub mod status;
pub mod errors;
pub mod api;
pub mod text;
pub mod header;
pub mod hex;
pub mod models;
pub mod paths;
pub mod markdown;
pub mod files;
pub mod users;
pub mod pages;
pub mod views;
pub mod routes;
