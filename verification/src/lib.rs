//! Agent orchestration engine: a pipeline that turns a natural-language
//! product request into generated, built, and runtime-validated server
//! code by consulting a text-generation oracle through role-specific
//! agents. This crate holds the verified core — the shared fact sheet,
//! the per-role state machines, and the bounded repair loop — while the
//! oracle transport, terminal, file storage, and process supervision
//! stay with the unverified front end that drives these machines.

pub mod architect;
pub mod backend;
pub mod basic_agent;
pub mod command_line;
pub mod error;
pub mod factsheet;
pub mod general;
pub mod llm;
pub mod manager;
