//! User registration domain built as ports and adapters: value objects and
//! the user entity, the repository and notification ports, an in-memory
//! repository guarded by a reader/writer lock, the user service that
//! orchestrates them, and the application settings.

pub mod config;
pub mod error;
pub mod in_memory;
pub mod ports;
pub mod service;
pub mod store;
pub mod user;
