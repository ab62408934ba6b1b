//! Verified core of the MCP center service: the decisions its HTTP handlers,
//! its authorization layer and its database handlers make, separated from
//! the network and database I/O that surrounds them.

pub mod auth;
pub mod db;
pub mod model;
pub mod outside;
pub mod registry;
pub mod response;
pub mod settings;
pub mod status;
pub mod text;
pub mod token;
