//! The verified core of an embedding-inference server: a catalog of model
//! directories, a registry built once at startup from per-model load
//! outcomes and read-only thereafter, and the dispatch layer that validates
//! requests, resolves model names, and assembles order-preserving responses
//! from per-text encode results.

pub mod catalog;
pub mod registry;
pub mod service;
