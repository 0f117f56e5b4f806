//! Errors of decoding and encoding records.

use vstd::prelude::*;
use crate::media_type::MediaType;

verus! {

#[derive(Debug)]
pub enum CodecError {
    UnsupportedMediaType(MediaType),
    Decode(String),
    Encode(String),
}

impl CodecError {
    /// A decode error carrying the message of `e`.
    pub fn decode<E: core::fmt::Display>(e: E) -> (r: Self)
        ensures
            r matches CodecError::Decode(m) && vstd::string::to_string_from_display_ensures::<E>(
                &e,
                m,
            ),
    {
        CodecError::Decode(e.to_string())
    }

    /// An encode error carrying the message of `e`.
    pub fn encode<E: core::fmt::Display>(e: E) -> (r: Self)
        ensures
            r matches CodecError::Encode(m) && vstd::string::to_string_from_display_ensures::<E>(
                &e,
                m,
            ),
    {
        CodecError::Encode(e.to_string())
    }

    pub fn is_unsupported(&self) -> (b: bool)
        ensures
            b == (self is UnsupportedMediaType),
    {
        match self {
            CodecError::UnsupportedMediaType(_) => true,
            _ => false,
        }
    }

    pub fn is_decode(&self) -> (b: bool)
        ensures
            b == (self is Decode),
    {
        match self {
            CodecError::Decode(_) => true,
            _ => false,
        }
    }

    pub fn is_encode(&self) -> (b: bool)
        ensures
            b == (self is Encode),
    {
        match self {
            CodecError::Encode(_) => true,
            _ => false,
        }
    }

    /// The error's message.
    pub fn to_string(&self) -> (s: String)
        ensures
            s@ == match self {
                CodecError::UnsupportedMediaType(mt) => "unsupported media type: "@ + mt.mime_spec(),
                CodecError::Decode(m) => "decode error: "@ + m@,
                CodecError::Encode(m) => "encode error: "@ + m@,
            },
    {
        match self {
            CodecError::UnsupportedMediaType(mt) => {
                String::from_str("unsupported media type: ").concat(mt.as_mime_str())
            },
            CodecError::Decode(m) => String::from_str("decode error: ").concat(m.as_str()),
            CodecError::Encode(m) => String::from_str("encode error: ").concat(m.as_str()),
        }
    }
}

/// Text that is not valid UTF-8 is a decoding failure.
impl From<std::str::Utf8Error> for CodecError {
    fn from(e: std::str::Utf8Error) -> (r: Self)
        ensures
            r matches CodecError::Decode(m) && vstd::string::to_string_from_display_ensures::<std::str::Utf8Error>(
                &e,
                m,
            ),
    {
        CodecError::decode(e)
    }
}

/// Bytes that are not valid UTF-8 are a decoding failure.
impl From<std::string::FromUtf8Error> for CodecError {
    fn from(e: std::string::FromUtf8Error) -> (r: Self)
        ensures
            r matches CodecError::Decode(m) && vstd::string::to_string_from_display_ensures::<std::string::FromUtf8Error>(
                &e,
                m,
            ),
    {
        CodecError::decode(e)
    }
}

/// The message comes from the error's `Display`, which no spec function
/// here computes: the conversion's own `ensures` says what it gives.
impl vstd::std_specs::convert::FromSpecImpl<std::str::Utf8Error> for CodecError {
    open spec fn obeys_from_spec() -> bool {
        false
    }

    open spec fn from_spec(e: std::str::Utf8Error) -> CodecError {
        arbitrary()
    }
}

/// The message comes from the error's `Display`, which no spec function
/// here computes: the conversion's own `ensures` says what it gives.
impl vstd::std_specs::convert::FromSpecImpl<std::string::FromUtf8Error> for CodecError {
    open spec fn obeys_from_spec() -> bool {
        false
    }

    open spec fn from_spec(e: std::string::FromUtf8Error) -> CodecError {
        arbitrary()
    }
}

#[verifier::external_type_specification]
#[verifier::external_body]
pub struct ExUtf8Error(std::str::Utf8Error);

} // verus!
