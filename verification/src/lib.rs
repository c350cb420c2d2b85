//! A minimal task-tracking library: the todo domain model, an abstract
//! repository contract with a verified in-memory implementation, a service
//! layer, the row and identifier codecs of the relational adapter, and the
//! interaction state machine of the terminal client.

pub mod codec;
pub mod http_types;
pub mod laws;
pub mod memory_repo;
pub mod repository;
pub mod service;
pub mod text;
pub mod todo;
pub mod ui;
