//! The standard library's owned file-system path type, carried as an opaque
//! value where configurations name files, and the values a path can be made
//! from.

use std::path::PathBuf;
use vstd::prelude::*;

use crate::data_source::file_system_source::{path_buf, path_buf_of};

verus! {

#[verifier::external_type_specification]
#[verifier::external_body]
pub struct ExPathBuf(std::path::PathBuf);

/// A value a file-system path can be made from: text, or a path itself.
pub trait IntoPath {
    /// The path the value makes.
    spec fn path_spec(&self) -> PathBuf;

    fn into_path(self) -> (p: PathBuf)
        ensures
            p == self.path_spec(),
    ;
}

/// Text makes the path `PathBuf::from` makes of it.
impl<'a> IntoPath for &'a str {
    open spec fn path_spec(&self) -> PathBuf {
        path_buf_of(self@)
    }

    fn into_path(self) -> (p: PathBuf) {
        path_buf(self)
    }
}

/// Text makes the path `PathBuf::from` makes of it.
impl IntoPath for String {
    open spec fn path_spec(&self) -> PathBuf {
        path_buf_of(self@)
    }

    fn into_path(self) -> (p: PathBuf) {
        path_buf(self.as_str())
    }
}

/// Text makes the path `PathBuf::from` makes of it.
impl<'a> IntoPath for &'a String {
    open spec fn path_spec(&self) -> PathBuf {
        path_buf_of(self@)
    }

    fn into_path(self) -> (p: PathBuf) {
        path_buf(self.as_str())
    }
}

/// A path is itself.
impl IntoPath for PathBuf {
    open spec fn path_spec(&self) -> PathBuf {
        *self
    }

    fn into_path(self) -> (p: PathBuf) {
        self
    }
}

} // verus!
