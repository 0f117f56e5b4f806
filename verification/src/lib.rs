//! Loom: layered pipeline operators and the runtime's plain data model
//! (media types, paths, model configuration, codecs, stores and scoring).

pub mod text;
pub mod media_type;
pub mod os_path;
pub mod model;
pub mod path;
pub mod data_source;
pub mod codec;
pub mod config;
pub mod bench;
pub mod eval;
pub mod pipe;
