//! Batch ingestion of data-dump archives into a relational store: the job
//! pipeline's decisions and the record-to-relational codec.

pub mod archive;
pub mod column;
pub mod decimal;
pub mod display;
pub mod download;
pub mod error;
pub mod job;
pub mod kinds;
pub mod loader;
pub mod parse;
pub mod path;
pub mod pipeline;
pub mod records;
pub mod row;
pub mod scheduler;
pub mod schema;
pub mod sql_utils;
pub mod text;
