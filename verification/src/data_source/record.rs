//! Stored data: raw records, their decoded documents, and the values those hold.

use vstd::prelude::*;
use vstd::utf8::{decode_utf8, encode_utf8, valid_utf8};
use crate::media_type::MediaType;
use crate::path::{FieldPath, Path};
use crate::data_source::store::Keyed;

verus! {

/// A decoded value.
#[derive(Debug, Clone)]
pub enum Value {
    Null,
    Bool(bool),
    Int(i64),
    String(String),
    /// A structured (or fractional) JSON value, held as its compact JSON text.
    Json(String),
}

impl Value {
    /// An equal copy.
    pub fn duplicate(&self) -> (r: Self)
        ensures
            r == *self,
    {
        match self {
            Value::Null => Value::Null,
            Value::Bool(b) => Value::Bool(*b),
            Value::Int(i) => Value::Int(*i),
            Value::String(s) => Value::String(s.clone()),
            Value::Json(t) => Value::Json(t.clone()),
        }
    }

    /// The text of a string value.
    pub fn as_str(&self) -> (r: Option<&str>)
        ensures
            match self {
                Value::String(s) => r matches Some(t) && t@ == s@,
                _ => r is None,
            },
    {
        match self {
            Value::String(s) => Some(s.as_str()),
            _ => None,
        }
    }

    /// The number of an integer value.
    pub fn as_int(&self) -> (r: Option<i64>)
        ensures
            match self {
                Value::Int(i) => r == Some(*i),
                _ => r is None,
            },
    {
        match self {
            Value::Int(i) => Some(*i),
            _ => None,
        }
    }
}

/// A piece of a document: a value, where it sits, and its content type.
#[derive(Debug, Clone)]
pub struct Entity {
    pub path: FieldPath,
    pub otype: String,
    pub content: Value,
}

impl Entity {
    /// An equal copy.
    pub fn duplicate(&self) -> (r: Self)
        ensures
            r == *self,
    {
        Entity { path: self.path.duplicate(), otype: self.otype.clone(), content: self.content.duplicate() }
    }

    pub fn new(path: FieldPath, otype: &str, content: Value) -> (e: Self)
        ensures
            e.path == path,
            e.otype@ == otype@,
            e.content == content,
    {
        Entity { path, otype: String::from_str(otype), content }
    }
}

/// A decoded record: the entities found at a path.
#[derive(Debug, Clone)]
pub struct Document {
    pub path: Path,
    pub media_type: MediaType,
    pub content: Vec<Entity>,
}

impl Document {
    pub fn new(path: Path, media_type: MediaType, content: Vec<Entity>) -> (d: Self)
        ensures
            d.path == path,
            d.media_type == media_type,
            d.content == content,
    {
        Document { path, media_type, content }
    }

    /// Same path, media type and entities.
    pub open spec fn same_spec(&self, other: Document) -> bool {
        self.path == other.path && self.media_type == other.media_type && self.content@ == other.content@
    }

    /// A copy with the same path, media type and entities.
    pub fn duplicate(&self) -> (r: Self)
        ensures
            r.same_spec(*self),
    {
        let mut content: Vec<Entity> = Vec::new();
        let mut i: usize = 0;
        while i < self.content.len()
            invariant
                i <= self.content@.len(),
                content@ == self.content@.subrange(0, i as int),
            decreases self.content@.len() - i,
        {
            content.push(self.content[i].duplicate());
            proof {
                assert(self.content@.subrange(0, i + 1) =~= self.content@.subrange(0, i as int).push(self.content@[i as int]));
            }
            i = i + 1;
        }
        assert(self.content@.subrange(0, self.content@.len() as int) =~= self.content@);
        Document { path: self.path.duplicate(), media_type: self.media_type, content }
    }
}

/// Raw content stored at a path.
#[derive(Debug, Clone)]
pub struct Record {
    pub path: Path,
    pub media_type: MediaType,
    pub content: Vec<u8>,
}

impl Record {
    pub fn new(path: Path, media_type: MediaType, content: Vec<u8>) -> (r: Self)
        ensures
            r.path == path,
            r.media_type == media_type,
            r.content == content,
    {
        Record { path, media_type, content }
    }

    /// A record holding the UTF-8 encoding of `content`.
    pub fn from_str(path: Path, media_type: MediaType, content: &str) -> (r: Self)
        ensures
            r.path == path,
            r.media_type == media_type,
            r.content@ == encode_utf8(content@),
    {
        let bytes = vstd::slice::slice_to_vec(content.as_bytes());
        Record { path, media_type, content: bytes }
    }

    /// Whether `other` holds the same path, media type and bytes.
    pub open spec fn same_spec(&self, other: Record) -> bool {
        self.path == other.path && self.media_type == other.media_type && self.content@
            == other.content@
    }

    /// A copy with the same path, media type and bytes.
    pub fn duplicate(&self) -> (r: Self)
        ensures
            r.same_spec(*self),
    {
        Record { path: self.path.duplicate(), media_type: self.media_type, content: self.content.clone() }
    }

    /// The key the record is stored under: its path text.
    pub open spec fn id_spec(&self) -> Seq<char> {
        self.path.text_spec()
    }

    pub fn id(&self) -> (s: String)
        ensures
            s@ == self.id_spec(),
    {
        self.path.to_string()
    }

    /// The content as text, if it is valid UTF-8.
    pub fn content_str(&self) -> (r: Option<String>)
        ensures
            valid_utf8(self.content@) <==> r is Some,
            r matches Some(s) ==> s@ == decode_utf8(self.content@),
    {
        match utf8_string(self.content.clone()) {
            Ok(s) => Some(s),
            Err(_) => None,
        }
    }
}

impl Keyed for Record {
    open spec fn key_spec(&self) -> Seq<char> {
        self.id_spec()
    }

    fn key(&self) -> (k: String) {
        self.id()
    }
}

impl Keyed for Document {
    open spec fn key_spec(&self) -> Seq<char> {
        self.path.text_spec()
    }

    fn key(&self) -> (k: String) {
        self.path.to_string()
    }
}

#[verifier::external_type_specification]
#[verifier::external_body]
pub struct ExFromUtf8Error(std::string::FromUtf8Error);

/// Calls `String::from_utf8`. Trusted: bytes that are valid UTF-8 give the
/// string they encode; other bytes give an error.
#[verifier::external_body]
pub(crate) fn utf8_string(bytes: Vec<u8>) -> (r: Result<String, std::string::FromUtf8Error>)
    ensures
        valid_utf8(bytes@) <==> r is Ok,
        r matches Ok(s) ==> s@ == decode_utf8(bytes@),
{
    String::from_utf8(bytes)
}

/// Calls `ToString::to_string` on a UTF-8 decoding error, for its message.
/// Nothing is stated of the text.
#[verifier::external_body]
pub(crate) fn utf8_error_text(e: &std::string::FromUtf8Error) -> String {
    e.to_string()
}

} // verus!
