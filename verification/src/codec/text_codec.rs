//! The codec for plain text.

use vstd::prelude::*;
use vstd::utf8::{decode_utf8, encode_utf8, valid_utf8};
use super::{Codec, CodecError};
use crate::data_source::record::{utf8_error_text, utf8_string};
use crate::data_source::{Document, Entity, Record, Value};
use crate::media_type::{Format, MediaType};
use crate::path::FieldPath;

verus! {

/// The name of the single entity a text document holds.
pub open spec fn root_name() -> Seq<char> {
    "root"@
}

/// Decodes records of text formats into a single string entity named
/// `root`, and encodes such documents back.
#[derive(Debug, Clone, Copy)]
pub struct TextCodec;

impl TextCodec {
    pub fn new() -> (c: Self) {
        TextCodec
    }

    /// What decoding `record` gives.
    pub open spec fn decode_spec(record: Record, r: Result<Document, CodecError>) -> bool {
        if record.media_type.format_spec() != Format::Text {
            r == Err::<Document, CodecError>(CodecError::UnsupportedMediaType(record.media_type))
        } else if !valid_utf8(record.content@) {
            r matches Err(CodecError::Decode(_))
        } else {
            match r {
                Ok(d) => {
                    &&& d.path == record.path
                    &&& d.media_type == record.media_type
                    &&& d.content@.len() == 1
                    &&& d.content@[0].path@ == root_name()
                    &&& d.content@[0].otype@ == record.media_type.mime_spec()
                    &&& d.content@[0].content is String
                    &&& d.content@[0].content->String_0@ == decode_utf8(record.content@)
                },
                Err(_) => false,
            }
        }
    }

    /// What encoding `document` gives.
    pub open spec fn encode_spec(document: Document, r: Result<Record, CodecError>) -> bool {
        if document.media_type.format_spec() != Format::Text {
            r == Err::<Record, CodecError>(CodecError::UnsupportedMediaType(document.media_type))
        } else if document.content@.len() == 0 {
            r matches Err(CodecError::Encode(m)) && m@ == "document has no content"@
        } else if !(document.content@[0].content is String) {
            r matches Err(CodecError::Encode(m)) && m@ == "content is not a string"@
        } else {
            match r {
                Ok(rec) => {
                    &&& rec.path == document.path
                    &&& rec.media_type == document.media_type
                    &&& rec.content@ == encode_utf8(document.content@[0].content->String_0@)
                },
                Err(_) => false,
            }
        }
    }
}

/// Decoding a text record and encoding the document back gives the same
/// path, media type and bytes.
pub proof fn law_decode_then_encode(record: Record, d: Document, r: Result<Record, CodecError>)
    requires
        record.media_type.format_spec() == Format::Text,
        valid_utf8(record.content@),
        TextCodec::decode_spec(record, Ok(d)),
        TextCodec::encode_spec(d, r),
    ensures
        r matches Ok(back) && back.path == record.path && back.media_type == record.media_type
            && back.content@ == record.content@,
{
    vstd::utf8::decode_utf8_encode_utf8(record.content@);
}

/// Encoding a text document and decoding the record back gives a document
/// with the same path, media type and text.
pub proof fn law_encode_then_decode(document: Document, rec: Record, r: Result<Document, CodecError>)
    requires
        document.media_type.format_spec() == Format::Text,
        document.content@.len() > 0,
        document.content@[0].content is String,
        TextCodec::encode_spec(document, Ok(rec)),
        TextCodec::decode_spec(rec, r),
    ensures
        r matches Ok(back) && back.path == document.path && back.media_type == document.media_type
            && back.content@[0].content->String_0@ == document.content@[0].content->String_0@,
{
    vstd::utf8::encode_utf8_valid_utf8(document.content@[0].content->String_0@);
    vstd::utf8::encode_utf8_decode_utf8(document.content@[0].content->String_0@);
}

impl Codec for TextCodec {
    fn format(&self) -> (f: Format)
        ensures
            f == Format::Text,
    {
        Format::Text
    }

    fn decode(&self, record: Record) -> (r: Result<Document, CodecError>)
        ensures
            TextCodec::decode_spec(record, r),
    {
        if record.media_type.format() != Format::Text {
            return Err(CodecError::UnsupportedMediaType(record.media_type));
        }
        let text = match utf8_string(record.content) {
            Ok(t) => t,
            Err(e) => {
                return Err(CodecError::Decode(utf8_error_text(&e)));
            },
        };
        let root = match FieldPath::parse("root") {
            Ok(p) => p,
            Err(_) => {
                proof {
                    crate::path::syntax::lemma_root_is_field_path();
                }
                return Err(CodecError::Decode(String::from_str("invalid field path")));
            },
        };
        let entity = Entity::new(root, record.media_type.as_mime_str(), Value::String(text));
        let mut content: Vec<Entity> = Vec::new();
        content.push(entity);
        Ok(Document::new(record.path, record.media_type, content))
    }

    fn encode(&self, document: Document) -> (r: Result<Record, CodecError>)
        ensures
            TextCodec::encode_spec(document, r),
    {
        if document.media_type.format() != Format::Text {
            return Err(CodecError::UnsupportedMediaType(document.media_type));
        }
        if document.content.len() == 0 {
            return Err(CodecError::Encode(String::from_str("document has no content")));
        }
        let text = match document.content[0].content.as_str() {
            Some(t) => t,
            None => {
                return Err(CodecError::Encode(String::from_str("content is not a string")));
            },
        };
        Ok(Record::from_str(document.path, document.media_type, text))
    }
}

} // verus!
