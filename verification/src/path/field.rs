//! Paths to fields inside structured values.

use vstd::prelude::*;
use super::syntax::{is_field_path, is_field_path_spec};
use super::PathError;

verus! {

/// A path to a field inside a structured value, e.g. `data.items[0].name`.
#[derive(Debug, Clone)]
pub struct FieldPath(String);

impl View for FieldPath {
    type V = Seq<char>;

    closed spec fn view(&self) -> Seq<char> {
        self.0@
    }
}

impl FieldPath {
    /// Parses a field path; text that is not one is refused.
    pub fn parse(input: &str) -> (r: Result<Self, PathError>)
        ensures
            is_field_path_spec(input@) <==> r is Ok,
            r matches Ok(p) ==> p@ == input@,
            r matches Err(e) ==> e == PathError::InvalidFieldPath,
    {
        if is_field_path(input) {
            Ok(FieldPath(String::from_str(input)))
        } else {
            Err(PathError::InvalidFieldPath)
        }
    }

    /// The path text.
    pub fn to_string(&self) -> (s: String)
        ensures
            s@ == self@,
    {
        self.0.clone()
    }

    /// An equal copy.
    pub fn duplicate(&self) -> (p: Self)
        ensures
            p == *self,
    {
        FieldPath(self.0.clone())
    }
}

} // verus!
