//! Structured logging core: leveled events, ambient context, a bounded
//! in-memory history and line renderers for a console and a file sink.

pub mod buffer;
pub mod console;
pub mod context;
pub mod document;
pub mod entry;
pub mod ingest;
pub mod level;
pub mod logger;
pub mod property;
pub mod registry;
pub mod settings;
pub mod text;
pub mod timestamp;
