//! Paths naming data: file paths, URIs and field paths.

pub mod field;
pub mod file;
pub mod syntax;
pub mod uri;

pub use field::FieldPath;
pub use file::FilePath;
pub use uri::UriPath;

use vstd::prelude::*;

verus! {

/// Why a text was refused as a path.
#[derive(Debug, Clone, Copy, PartialEq, Eq, Structural)]
pub enum PathError {
    InvalidFieldPath,
    InvalidUri,
}

/// A path to data: a file, a URI or a field.
#[derive(Debug, Clone)]
pub enum Path {
    File(FilePath),
    Uri(UriPath),
    Field(FieldPath),
}

impl Path {
    /// The text of the path, whatever its kind.
    pub open spec fn text_spec(&self) -> Seq<char> {
        match self {
            Path::File(p) => p@,
            Path::Uri(p) => p@,
            Path::Field(p) => p@,
        }
    }

    pub fn is_file(&self) -> (b: bool)
        ensures
            b == (self is File),
    {
        match self {
            Path::File(_) => true,
            _ => false,
        }
    }

    pub fn is_uri(&self) -> (b: bool)
        ensures
            b == (self is Uri),
    {
        match self {
            Path::Uri(_) => true,
            _ => false,
        }
    }

    pub fn is_field(&self) -> (b: bool)
        ensures
            b == (self is Field),
    {
        match self {
            Path::Field(_) => true,
            _ => false,
        }
    }

    /// An equal copy.
    pub fn duplicate(&self) -> (p: Self)
        ensures
            p == *self,
    {
        match self {
            Path::File(f) => Path::File(f.duplicate()),
            Path::Uri(u) => Path::Uri(u.duplicate()),
            Path::Field(f) => Path::Field(f.duplicate()),
        }
    }

    /// The path text.
    pub fn to_string(&self) -> (s: String)
        ensures
            s@ == self.text_spec(),
    {
        match self {
            Path::File(p) => p.to_string(),
            Path::Uri(p) => p.to_string(),
            Path::Field(p) => p.to_string(),
        }
    }
}

} // verus!
