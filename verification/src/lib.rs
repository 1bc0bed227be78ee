//! A small in-memory registry of named workspaces with one of them selected
//! as current.

pub mod registry;
pub mod workspace;
