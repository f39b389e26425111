//! Tools for building JDX image-dataset containers: a command-line argument
//! parser for the tool's commands, and the ingestion pipeline that validates
//! decoded images and assembles them into an in-memory dataset.

pub mod dataset;
pub mod ingest;
pub mod parser;
pub mod text;
