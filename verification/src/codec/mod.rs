//! Codecs turn raw records into documents and back.

pub mod error;
pub mod text_codec;

pub use error::CodecError;
pub use text_codec::TextCodec;

use vstd::prelude::*;
use crate::data_source::{Document, Record};
use crate::media_type::Format;

verus! {

/// A codec decodes records of one format into documents and encodes them back.
pub trait Codec {
    fn format(&self) -> Format;

    fn decode(&self, record: Record) -> Result<Document, CodecError>;

    fn encode(&self, document: Document) -> Result<Record, CodecError>;
}

} // verus!
