//! A blocking facade over an asynchronous document-indexing engine.
//!
//! The host builds a [`service_config::PhpPagefindServiceConfig`], constructs a
//! [`indexer::PhpPagefindIndex`] from it and issues add, write and read calls.
//! Each call is handed to the engine as an [`indexer::EngineCall`]; what the
//! engine reports back is turned into a [`response::PhpPagefindResponse`], a
//! sequence of [`file::PhpPagefindFile`] values, or a
//! [`exception::PagefindException`].
pub mod exception;
pub mod file;
pub mod response;
pub mod service_config;
pub mod indexer;
