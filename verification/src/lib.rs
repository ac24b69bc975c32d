//! Query assembly and request handling rules for a blog backend.
//!
//! The heart of the crate is [`assembler`]: it turns ordered lists of
//! optional predicates and assignments into parameterised SQL text together
//! with the bound values, in matching order.

pub mod assembler;
pub mod config;
pub mod db;
pub mod dtos;
pub mod error;
pub mod ids;
pub mod laws;
pub mod models;
pub mod response;
pub mod scopes;
pub mod text;
pub mod time;
