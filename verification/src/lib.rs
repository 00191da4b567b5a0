//! Tools that a language model can call by name, and the bounded planning
//! loop that decides which one to call next.

pub mod agent;
pub mod decision;
pub mod extract;
pub mod format;
pub mod handler;
pub mod parser;
pub mod pipe;
pub mod registry;
pub mod text;
pub mod yaml;
