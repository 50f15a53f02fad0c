//! A small ToDo lifecycle model: validated value objects, a two-state ToDo
//! entity with its transition rules, and the decisions that the create and
//! update services make around a repository.

pub mod time;
pub mod error_types;
pub mod helpers;
pub mod domain;
pub mod public_types;
pub mod events;
pub mod commands;
pub mod validate;
pub mod laws;
pub mod storage;
