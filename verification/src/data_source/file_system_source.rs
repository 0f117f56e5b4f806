//! A data source backed by files under a base directory.
//!
//! The source decides and remembers; the caller does the file-system work
//! and hands each outcome back (whether a file exists, what reading or
//! writing it gave). Every record read or written is kept in a cache,
//! keyed by its path text, until `clear`.

use std::path::PathBuf;
use vstd::prelude::*;

use super::error::{ReadError, WriteError};
use super::record::Record;
use super::store::{lookup, removed, stored, keys_distinct, Store};
use crate::media_type::{MediaType, path_extension_of};
use crate::path::Path;
use crate::os_path::IntoPath;

verus! {

/// The path `PathBuf::from` makes of a text: it holds the text's characters
/// as they are, so the same text always gives the same path.
pub uninterp spec fn path_buf_of(s: Seq<char>) -> PathBuf;

/// The path the options of a source name where none was set: the current
/// directory, `"."`.
pub open spec fn current_dir_path() -> PathBuf {
    path_buf_of("."@)
}

/// Calls `PathBuf::from` on `s`. Trusted: the result is the named path of
/// `s`; what that path holds is not stated here.
#[verifier::external_body]
pub(crate) fn path_buf(s: &str) -> (r: PathBuf)
    ensures
        r == path_buf_of(s@),
{
    PathBuf::from(s)
}

/// Whether `std::path::Path::is_absolute` holds of a path text: on the
/// platform this library is built for, a function of the text alone.
pub uninterp spec fn is_absolute_of(s: Seq<char>) -> bool;

/// The path `PathBuf::join` makes of `base` and a relative text: on the
/// platform this library is built for, a function of the two alone.
pub uninterp spec fn path_join_of(base: PathBuf, rel: Seq<char>) -> PathBuf;

/// Calls `std::path::Path::is_absolute` on `s`. Trusted: the result is the
/// named `is_absolute_of(s)`; which texts are absolute is not stated here.
#[verifier::external_body]
fn is_absolute(s: &str) -> (r: bool)
    ensures
        r == is_absolute_of(s@),
{
    std::path::Path::new(s).is_absolute()
}

/// Calls `PathBuf::join` of `base` with `rel`. Trusted: the result is the
/// named `path_join_of(base, rel)`; what it holds is not stated here.
#[verifier::external_body]
fn join(base: &PathBuf, rel: &str) -> (r: PathBuf)
    ensures
        r == path_join_of(*base, rel@),
{
    base.join(rel)
}

/// The file a path text names under `base`: the text itself where it is
/// absolute, else the text joined onto `base`.
pub open spec fn resolved_path(base: PathBuf, text: Seq<char>) -> PathBuf {
    if is_absolute_of(text) {
        path_buf_of(text)
    } else {
        path_join_of(base, text)
    }
}

/// The file a path names: itself where absolute, else under `base`; only
/// file paths are accepted, and `source` names the source in the refusal.
pub(crate) fn resolve(base: &PathBuf, path: &Path, source: &str) -> (r: Result<PathBuf, ReadError>)
    ensures
        path is File <==> r is Ok,
        path is File ==> r == Ok::<PathBuf, ReadError>(resolved_path(*base, path.text_spec())),
        !(path is File) ==> (r matches Err(ReadError::Custom(m)) && m@ == source@ + " only supports File paths"@),
{
    match path {
        Path::File(fp) => {
            let text = fp.to_string();
            assert(text@ == path.text_spec());
            if is_absolute(text.as_str()) {
                Ok(path_buf(text.as_str()))
            } else {
                Ok(join(base, text.as_str()))
            }
        },
        _ => Err(ReadError::Custom(String::from_str(source).concat(" only supports File paths"))),
    }
}

/// A message naming a path.
pub(crate) fn about(prefix: &str, path: &Path) -> (m: String)
    ensures
        m@ == prefix@ + path.text_spec(),
{
    let t = path.to_string();
    String::from_str(prefix).concat(t.as_str())
}

/// Refuses to create a file that exists.
pub fn refuse_existing(path: &Path, exists: bool) -> (r: Result<(), WriteError>)
    ensures
        exists ==> (r matches Err(WriteError::Custom(m)) && m@ == "file already exists: "@ + path.text_spec()),
        !exists ==> r is Ok,
{
    if exists {
        Err(WriteError::Custom(about("file already exists: ", path)))
    } else {
        Ok(())
    }
}

/// Refuses to touch a file that does not exist.
pub fn refuse_missing(path: &Path, exists: bool) -> (r: Result<(), WriteError>)
    ensures
        !exists ==> (r matches Err(WriteError::Custom(m)) && m@ == "file not found: "@ + path.text_spec()),
        exists ==> r is Ok,
{
    if exists {
        Ok(())
    } else {
        Err(WriteError::Custom(about("file not found: ", path)))
    }
}

/// How many files a path counts: one for a file, the files found under a
/// directory, none otherwise.
pub fn file_count(is_file: bool, is_dir: bool, files_under: usize) -> (n: usize)
    ensures
        n == if is_file { 1 } else if is_dir { files_under } else { 0 },
{
    if is_file {
        1
    } else if is_dir {
        files_under
    } else {
        0
    }
}

/// Where a file-system source keeps its files.
#[derive(Debug)]
pub struct FileSystemSourceOptions {
    pub path: PathBuf,
}

impl Default for FileSystemSourceOptions {
    /// Files under the current directory.
    fn default() -> (o: Self)
        ensures
            o.path == current_dir_path(),
    {
        FileSystemSourceOptions { path: path_buf(".") }
    }
}

impl FileSystemSourceOptions {
    /// Files under the current directory.
    pub fn new() -> (o: Self)
        ensures
            o.path == current_dir_path(),
    {
        FileSystemSourceOptions::default()
    }

    /// Sets the base directory; text names the path `PathBuf::from` makes
    /// of it.
    pub fn with_path<P: IntoPath>(self, path: P) -> (o: Self)
        ensures
            o.path == path.path_spec(),
    {
        FileSystemSourceOptions { path: path.into_path() }
    }
}

/// A data source of files under a base directory, with a cache of what was
/// read or written.
pub struct FileSystemSource {
    options: FileSystemSourceOptions,
    cache: Store<Record>,
}

impl View for FileSystemSource {
    type V = Seq<Record>;

    /// The cached records, in the order their paths were first cached.
    closed spec fn view(&self) -> Seq<Record> {
        self.cache@
    }
}

impl FileSystemSource {
    /// An empty source of files under the current directory.
    pub fn new() -> (s: Self)
        ensures
            s@ == Seq::<Record>::empty(),
            s.options_spec().path == current_dir_path(),
    {
        FileSystemSource::with_options(FileSystemSourceOptions::default())
    }

    pub fn with_options(options: FileSystemSourceOptions) -> (s: Self)
        ensures
            s@ == Seq::<Record>::empty(),
            s.options_spec() == options,
    {
        FileSystemSource { options, cache: Store::new() }
    }

    pub closed spec fn options_spec(&self) -> FileSystemSourceOptions {
        self.options
    }

    pub fn options(&self) -> (o: &FileSystemSourceOptions)
        ensures
            *o == self.options_spec(),
    {
        &self.options
    }

    /// Empties the cache.
    pub fn clear(&mut self) -> (r: Result<(), ReadError>)
        ensures
            r is Ok,
            final(self)@ == Seq::<Record>::empty(),
            final(self).options_spec() == old(self).options_spec(),
    {
        self.cache.clear();
        Ok(())
    }

    /// The file a path names; only file paths are accepted.
    pub fn full_path(&self, path: &Path) -> (r: Result<PathBuf, ReadError>)
        ensures
            path is File <==> r is Ok,
            path is File ==> r == Ok::<PathBuf, ReadError>(resolved_path(self.options_spec().path, path.text_spec())),
            !(path is File) ==> (r matches Err(ReadError::Custom(m)) && m@ == "FileSystemSource only supports File paths"@),
    {
        proof {
            reveal_strlit("FileSystemSource");
            reveal_strlit(" only supports File paths");
            reveal_strlit("FileSystemSource only supports File paths");
            assert("FileSystemSource"@ + " only supports File paths"@ =~= "FileSystemSource only supports File paths"@);
        }
        resolve(&self.options.path, path, "FileSystemSource")
    }

    /// The cached record of a path, if any.
    pub fn cached(&self, path: &Path) -> (r: Option<Record>)
        ensures
            match lookup(self@, path.text_spec()) {
                Some(rec) => r matches Some(x) && x.same_spec(rec),
                None => r is None,
            },
    {
        let id = path.to_string();
        match self.cache.get(&id) {
            Some(rec) => Some(rec.duplicate()),
            None => None,
        }
    }

    /// The record read from the file `full_path` for `path`: its media type
    /// comes from the file's extension. It is cached. A failed read is
    /// passed on and changes nothing.
    pub fn loaded(&mut self, path: &Path, full_path: &str, read: Result<Vec<u8>, std::io::Error>) -> (r: Result<Record, ReadError>)
        ensures
            final(self).options_spec() == old(self).options_spec(),
            keys_distinct(final(self)@),
            read is Err ==> final(self)@ == old(self)@,
            read is Err ==> (r matches Err(ReadError::IO(e)) && read == Err::<Vec<u8>, std::io::Error>(e)),
            read matches Ok(bytes) ==> (r matches Ok(rec) && rec.path == *path && rec.content@ == bytes@
                && rec.media_type == MediaType::from_ext_spec(path_extension_of(full_path@))
                && exists|c: Record| c.same_spec(rec) && final(self)@ == stored(old(self)@, c)),
    {
        match read {
            Err(e) => {
                proof { use_type_invariant(&self.cache); }
                Err(ReadError::IO(e))
            },
            Ok(bytes) => {
                let media_type = MediaType::from_path(full_path);
                let rec = Record::new(path.duplicate(), media_type, bytes);
                let kept = rec.duplicate();
                let ghost c = rec;
                self.cache.put(rec);
                assert(c.same_spec(kept) && self@ == stored(old(self)@, c));
                Ok(kept)
            },
        }
    }

    /// Records the outcome of writing `record` to its file: cached where the
    /// write succeeded, else the failure is passed on and nothing changes.
    pub fn written(&mut self, record: Record, write: Result<(), std::io::Error>) -> (r: Result<(), WriteError>)
        ensures
            final(self).options_spec() == old(self).options_spec(),
            keys_distinct(final(self)@),
            match write {
                Err(e) => r == Err::<(), WriteError>(WriteError::IO(e)) && final(self)@ == old(self)@,
                Ok(()) => r is Ok && final(self)@ == stored(old(self)@, record),
            },
    {
        match write {
            Err(e) => {
                proof { use_type_invariant(&self.cache); }
                Err(WriteError::IO(e))
            },
            Ok(()) => {
                self.cache.put(record);
                Ok(())
            },
        }
    }

    /// Records the outcome of removing the file of `path`: the path leaves
    /// the cache whatever the outcome; a failure is passed on.
    pub fn deleted(&mut self, path: &Path, remove: Result<(), std::io::Error>) -> (r: Result<(), WriteError>)
        ensures
            final(self).options_spec() == old(self).options_spec(),
            keys_distinct(final(self)@),
            final(self)@ == removed(old(self)@, path.text_spec()),
            match remove {
                Err(e) => r == Err::<(), WriteError>(WriteError::IO(e)),
                Ok(()) => r is Ok,
            },
    {
        let id = path.to_string();
        let _ = self.cache.take(&id);
        match remove {
            Err(e) => Err(WriteError::IO(e)),
            Ok(()) => Ok(()),
        }
    }
}

impl Default for FileSystemSource {
    fn default() -> (s: Self)
        ensures
            s@ == Seq::<Record>::empty(),
    {
        FileSystemSource::new()
    }
}

/// After `clear` nothing is cached, so `cached` gives `None` for every path
/// and every later read goes to the file again.
pub proof fn law_cleared_source_caches_nothing(source: FileSystemSource, path: Path)
    requires
        source@ == Seq::<Record>::empty(),
    ensures
        lookup(source@, path.text_spec()) is None,
{
}

} // verus!
