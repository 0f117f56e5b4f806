//! Stored data and the sources that hold it.

pub mod error;
pub mod etag;
pub mod file_system_source;
pub mod json_source;
pub mod memory_source;
pub mod record;
pub mod store;

pub use error::{ReadError, WriteError};
pub use etag::ETag;
pub use file_system_source::{FileSystemSource, FileSystemSourceOptions};
pub use json_source::{JsonFileSource, JsonFileSourceOptions};
pub use memory_source::MemorySource;
pub use record::{Document, Entity, Record, Value};

use vstd::prelude::*;
use crate::path::Path;

verus! {

/// A store of records addressed by path.
pub trait DataSource {
    fn path_exists(&self, path: &Path) -> Result<bool, ReadError>;

    fn count(&self, path: &Path) -> Result<usize, ReadError>;

    fn find_one(&self, path: &Path) -> Result<Record, ReadError>;

    fn find(&self, path: &Path) -> Result<Vec<Record>, ReadError>;

    fn create(&mut self, record: Record) -> Result<(), WriteError>;

    fn update(&mut self, record: Record) -> Result<(), WriteError>;

    fn upsert(&mut self, record: Record) -> Result<(), WriteError>;

    fn delete(&mut self, path: &Path) -> Result<(), WriteError>;
}

} // verus!
