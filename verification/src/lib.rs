//! Export and preview tasks of a document server.

pub mod adapter;
pub mod bench;
pub mod color;
pub mod document;
pub mod drawing;
pub mod error;
pub mod export;
pub mod json;
pub mod message;
pub mod number;
pub mod path;
pub mod position;
pub mod produce;
pub mod query;
pub mod render;
pub mod run;
pub mod serialize;
pub mod step;
pub mod task;
pub mod text;
pub mod webview;
