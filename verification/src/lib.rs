//! A semantic cache in front of an LLM: queries are normalized, hashed and
//! embedded; close matches are answered from a key-value store, everything
//! else goes to the model, and admission policies decide which answers are
//! written back.

pub mod types;
pub mod config;
pub mod admission;
pub mod embedding;
pub mod digest;
pub mod cache;
pub mod monitoring;
pub mod pipeline;
pub mod routes;
pub mod llm;
