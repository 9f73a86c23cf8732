//! A small verified core for an embeddings/generation micro service.
//!
//! The service exposes three HTTP routes: a health probe, an embeddings
//! route that forwards raw text to an inference backend, and a generation
//! route that parses a JSON body, renders a prompt template and forwards
//! the rendered prompt.  Everything that decides or computes lives here;
//! the network edges (HTTP server, inference client, schema provisioning
//! call) live outside and exchange plain values with this crate.

pub mod config;
pub mod embed;
pub mod generate;
pub mod handlers;
pub mod json;
pub mod provision;
pub mod state;
pub mod template;
pub mod text;
