//! A model-control-protocol tool server over a wiki's page REST API: the data
//! model of pages and requests, the client's request building and response
//! checking, the tool layer's decisions, and the rendering of results as text.
pub mod client;
pub mod formatters;
pub mod models;
pub mod params;
pub mod text;
pub mod tools;
