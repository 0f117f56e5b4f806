//! URIs naming remote data.

use vstd::prelude::*;
use super::syntax::{is_uri, is_uri_spec};
use super::PathError;

verus! {

/// A URI, e.g. `https://example.com/path`.
#[derive(Debug, Clone)]
pub struct UriPath(String);

impl View for UriPath {
    type V = Seq<char>;

    closed spec fn view(&self) -> Seq<char> {
        self.0@
    }
}

impl UriPath {
    /// Parses a URI; text that is not one is refused.
    pub fn parse(input: &str) -> (r: Result<Self, PathError>)
        ensures
            is_uri_spec(input@) <==> r is Ok,
            r matches Ok(p) ==> p@ == input@,
            r matches Err(e) ==> e == PathError::InvalidUri,
    {
        if is_uri(input) {
            Ok(UriPath(String::from_str(input)))
        } else {
            Err(PathError::InvalidUri)
        }
    }

    /// The URI text.
    pub fn to_string(&self) -> (s: String)
        ensures
            s@ == self@,
    {
        self.0.clone()
    }

    /// An equal copy.
    pub fn duplicate(&self) -> (p: Self)
        ensures
            p == *self,
    {
        UriPath(self.0.clone())
    }
}

} // verus!
