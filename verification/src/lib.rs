//! Ingestion pipeline for identifying physical media from photographs and
//! recording matching releases in a remote collection catalog.
//!
//! The pipeline takes a raw image file through five stages: preparation
//! (resize and encode), recognition (best-guess label), catalog search and
//! disambiguation, collection write, and idempotency marking.

pub mod auth;
pub mod catalog;
pub mod collection;
pub mod errors;
pub mod jsonpath;
pub mod marker;
pub mod orchestrator;
pub mod prepare;
pub mod recognize;
pub mod request;
pub mod text;
