//! A client for the collections endpoints of a model-hosting HTTP API.
//!
//! The library builds each request from a [`config::Config`], hands it to a
//! transport that the caller supplies, and turns the reply into a typed value
//! or a typed error. Everything but the transport and the JSON parser is
//! verified.

pub mod api_definitions;
pub mod collection;
pub mod config;
pub mod errors;
pub mod json;
pub mod shape;
pub mod transport;
