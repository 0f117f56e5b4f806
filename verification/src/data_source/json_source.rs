//! A data source of JSON and text files under a base directory.
//!
//! A file becomes a document with one entity at the field path `root`:
//! JSON files hold their (normalised) JSON value, other text files their
//! text. As with the file-system source, the caller does the file-system
//! work and hands each outcome back; documents read or written are cached.

use std::path::PathBuf;
use vstd::prelude::*;

use super::error::{ReadError, WriteError};
use super::file_system_source::{current_dir_path, path_buf, resolve, resolved_path};
use super::record::{Document, Entity, Value};
use super::store::{lookup, removed, stored, keys_distinct, Store};
use crate::media_type::{MediaType, path_extension_of};
use crate::path::{FieldPath, Path};
use crate::os_path::IntoPath;

verus! {

/// What `serde_json` makes of `text`: its compact form, or the parse error.
pub uninterp spec fn json_normal_of(text: Seq<char>) -> Result<Seq<char>, Seq<char>>;

/// What `serde_json` makes of `text` pretty-printed, or the parse error.
pub uninterp spec fn json_pretty_of(text: Seq<char>) -> Result<Seq<char>, Seq<char>>;

/// The lower-case hexadecimal digit for `d` (0 to 15).
pub open spec fn hex_digit(d: int) -> char {
    if d < 10 {
        ('0' as int + d) as char
    } else {
        ('a' as int + d - 10) as char
    }
}

/// How a JSON string literal writes `c`: `"` and `\` after a backslash;
/// backspace, form feed, line feed, carriage return and tab as `\b`, `\f`,
/// `\n`, `\r`, `\t`; the other characters below U+0020 as `\u00` and two
/// lower-case hex digits; every other character as itself.
pub open spec fn json_escape_char(c: char) -> Seq<char> {
    if c == '"' {
        seq!['\\', '"']
    } else if c == '\\' {
        seq!['\\', '\\']
    } else if c == '\u{8}' {
        seq!['\\', 'b']
    } else if c == '\u{c}' {
        seq!['\\', 'f']
    } else if c == '\n' {
        seq!['\\', 'n']
    } else if c == '\r' {
        seq!['\\', 'r']
    } else if c == '\t' {
        seq!['\\', 't']
    } else if (c as u32) < 0x20 {
        seq!['\\', 'u', '0', '0', hex_digit((c as int) / 16), hex_digit((c as int) % 16)]
    } else {
        seq![c]
    }
}

/// The characters of `s`, each written as in a JSON string literal.
pub open spec fn json_escaped(s: Seq<char>) -> Seq<char>
    decreases s.len(),
{
    if s.len() == 0 {
        Seq::empty()
    } else {
        json_escaped(s.drop_last()) + json_escape_char(s.last())
    }
}

/// The JSON string literal of `s`: its escaped characters between quotes.
pub open spec fn json_string_spec(s: Seq<char>) -> Seq<char> {
    seq!['"'] + json_escaped(s) + seq!['"']
}

/// The decimal digit for `d` (0 to 9).
pub open spec fn digit_char(d: int) -> char {
    ('0' as int + d) as char
}

/// The decimal digits of `n`, most significant first.
pub open spec fn decimal_digits(n: nat) -> Seq<char>
    decreases n,
{
    if n < 10 {
        seq![digit_char(n as int)]
    } else {
        decimal_digits(n / 10).push(digit_char((n % 10) as int))
    }
}

/// `i` in decimal, with a leading `-` where negative.
pub open spec fn decimal(i: int) -> Seq<char> {
    if i < 0 {
        seq!['-'] + decimal_digits((-i) as nat)
    } else {
        decimal_digits(i as nat)
    }
}

/// Calls `serde_json::from_str::<serde_json::Value>` on `text` and writes the
/// value back with its `Display` (compact JSON); a parse error is given as
/// its message. Trusted: the outcome is the named `json_normal_of(text)`.
#[verifier::external_body]
fn json_normal(text: &str) -> (r: Result<String, String>)
    ensures
        match r {
            Ok(t) => json_normal_of(text@) == Ok::<Seq<char>, Seq<char>>(t@),
            Err(m) => json_normal_of(text@) == Err::<Seq<char>, Seq<char>>(m@),
        },
{
    match serde_json::from_str::<serde_json::Value>(text) {
        Ok(v) => Ok(v.to_string()),
        Err(e) => Err(e.to_string()),
    }
}

/// Calls `serde_json::from_str::<serde_json::Value>` on `text` and
/// `serde_json::to_string_pretty` on the value; an error is given as its
/// message. Trusted: the outcome is the named `json_pretty_of(text)`.
#[verifier::external_body]
fn json_pretty(text: &str) -> (r: Result<String, String>)
    ensures
        match r {
            Ok(t) => json_pretty_of(text@) == Ok::<Seq<char>, Seq<char>>(t@),
            Err(m) => json_pretty_of(text@) == Err::<Seq<char>, Seq<char>>(m@),
        },
{
    match serde_json::from_str::<serde_json::Value>(text) {
        Ok(v) => match serde_json::to_string_pretty(&v) {
            Ok(t) => Ok(t),
            Err(e) => Err(e.to_string()),
        },
        Err(e) => Err(e.to_string()),
    }
}

/// Calls `Display` of `serde_json::Value::String` on `s`: its JSON string
/// literal. Trusted: that is `s` between quotes with the escapes serde_json
/// writes (its `ESCAPE` table and `write_char_escape`).
#[verifier::external_body]
fn json_string(s: &str) -> (r: String)
    ensures
        r@ == json_string_spec(s@),
{
    serde_json::Value::String(s.to_string()).to_string()
}

/// Calls `Display` of `serde_json::Value::from` on `i`: its JSON number.
/// Trusted: that is `i` in decimal, as JSON writes integers.
#[verifier::external_body]
fn json_int(i: i64) -> (r: String)
    ensures
        r@ == decimal(i as int),
{
    serde_json::Value::from(i).to_string()
}

/// The JSON text of a value.
pub open spec fn value_json_spec(v: Value) -> Seq<char> {
    match v {
        Value::Null => "null"@,
        Value::Bool(b) => if b { "true"@ } else { "false"@ },
        Value::Int(i) => decimal(i as int),
        Value::String(s) => json_string_spec(s@),
        Value::Json(t) => t@,
    }
}

/// The JSON text of a value.
pub fn value_json(v: &Value) -> (t: String)
    ensures
        t@ == value_json_spec(*v),
{
    match v {
        Value::Null => String::from_str("null"),
        Value::Bool(b) => if *b { String::from_str("true") } else { String::from_str("false") },
        Value::Int(i) => json_int(*i),
        Value::String(s) => json_string(s.as_str()),
        Value::Json(t) => t.clone(),
    }
}

/// How a file's content is read and written.
#[derive(Debug, Clone, Copy, PartialEq, Eq, Structural)]
pub enum ContentKind {
    /// As a JSON value.
    Json,
    /// As text.
    Text,
}

/// How content of a media type is handled: JSON as JSON, other text-like
/// types as text; the rest are not supported.
pub open spec fn content_kind_spec(media_type: MediaType) -> Option<ContentKind> {
    if media_type == MediaType::TextJson {
        Some(ContentKind::Json)
    } else if media_type.textlike_spec() {
        Some(ContentKind::Text)
    } else {
        None
    }
}

/// How content of `media_type` is handled, or the message refusing it.
pub fn content_kind(media_type: MediaType) -> (r: Result<ContentKind, String>)
    ensures
        match content_kind_spec(media_type) {
            Some(k) => r == Ok::<ContentKind, String>(k),
            None => r matches Err(m) && m@ == "Unsupported media type: "@ + media_type.mime_spec(),
        },
{
    if media_type == MediaType::TextJson {
        Ok(ContentKind::Json)
    } else if media_type.is_textlike() {
        Ok(ContentKind::Text)
    } else {
        Err(String::from_str("Unsupported media type: ").concat(media_type.as_mime_str()))
    }
}

/// Where a JSON source keeps its files, and whether it writes JSON
/// pretty-printed.
#[derive(Debug)]
pub struct JsonFileSourceOptions {
    pub path: PathBuf,
    pub pretty_print: bool,
}

impl Default for JsonFileSourceOptions {
    /// Files under the current directory, written compactly.
    fn default() -> (o: Self)
        ensures
            o.path == current_dir_path(),
            !o.pretty_print,
    {
        JsonFileSourceOptions { path: path_buf("."), pretty_print: false }
    }
}

impl JsonFileSourceOptions {
    /// Files under the current directory, written compactly.
    pub fn new() -> (o: Self)
        ensures
            o.path == current_dir_path(),
            !o.pretty_print,
    {
        JsonFileSourceOptions::default()
    }

    /// Sets the base directory; text names the path `PathBuf::from` makes
    /// of it.
    pub fn with_path<P: IntoPath>(self, path: P) -> (o: Self)
        ensures
            o.pretty_print == self.pretty_print,
            o.path == path.path_spec(),
    {
        JsonFileSourceOptions { path: path.into_path(), pretty_print: self.pretty_print }
    }

    /// Sets whether JSON is written pretty-printed.
    pub fn with_pretty_print(self, pretty: bool) -> (o: Self)
        ensures
            o.pretty_print == pretty,
            o.path == self.path,
    {
        JsonFileSourceOptions { pretty_print: pretty, ..self }
    }
}

/// A data source of JSON and text files, with a cache of the documents read
/// or written.
pub struct JsonFileSource {
    options: JsonFileSourceOptions,
    cache: Store<Document>,
}

impl View for JsonFileSource {
    type V = Seq<Document>;

    /// The cached documents, in the order their paths were first cached.
    closed spec fn view(&self) -> Seq<Document> {
        self.cache@
    }
}

fn root_path() -> (r: Option<FieldPath>)
    ensures
        r matches Some(p) && p@ == "root"@,
{
    proof {
        crate::path::syntax::lemma_root_is_field_path();
    }
    match FieldPath::parse("root") {
        Ok(p) => Some(p),
        Err(_) => None,
    }
}

/// Whether the text of a file of `media_type` makes a document.
pub open spec fn file_accepted(media_type: MediaType, text: Seq<char>) -> bool {
    match content_kind_spec(media_type) {
        None => false,
        Some(ContentKind::Json) => json_normal_of(text) is Ok,
        Some(ContentKind::Text) => true,
    }
}

/// `d` is the document that the text of a file of `media_type` at `path`
/// makes: one entity at `root`, typed by the media type, holding the text
/// (text files) or the normalised JSON (JSON files).
pub open spec fn file_document_spec(d: Document, path: Path, media_type: MediaType, text: Seq<char>) -> bool {
    &&& d.path == path
    &&& d.media_type == media_type
    &&& d.content@.len() == 1
    &&& d.content@[0].path@ == "root"@
    &&& d.content@[0].otype@ == media_type.mime_spec()
    &&& match content_kind_spec(media_type) {
        Some(ContentKind::Json) => d.content@[0].content matches Value::Json(j) && json_normal_of(text) == Ok::<Seq<char>, Seq<char>>(j@),
        _ => d.content@[0].content matches Value::String(s) && s@ == text,
    }
}

/// The document a file's text becomes; other media types, and JSON that
/// does not parse, are refused.
pub fn file_document(path: &Path, media_type: MediaType, text: String) -> (r: Result<Document, ReadError>)
    ensures
        file_accepted(media_type, text@) <==> r is Ok,
        r matches Ok(d) ==> file_document_spec(d, *path, media_type, text@),
        content_kind_spec(media_type) is None ==> (r matches Err(ReadError::Custom(m)) && m@ == "Unsupported media type: "@
            + media_type.mime_spec()),
        content_kind_spec(media_type) == Some(ContentKind::Json) ==> (json_normal_of(text@) matches Err(e) ==> (
            r matches Err(ReadError::Custom(m)) && m@ == "JSON parse error: "@ + e)),
{
    let value = match content_kind(media_type) {
        Err(m) => {
            return Err(ReadError::Custom(m));
        },
        Ok(ContentKind::Text) => Value::String(text),
        Ok(ContentKind::Json) => match json_normal(text.as_str()) {
            Ok(t) => Value::Json(t),
            Err(e) => {
                return Err(ReadError::Custom(String::from_str("JSON parse error: ").concat(e.as_str())));
            },
        },
    };
    let root = match root_path() {
        Some(p) => p,
        None => {
            return Err(ReadError::Custom(String::from_str("invalid field path")));
        },
    };
    let entity = Entity::new(root, media_type.as_mime_str(), value);
    let mut content: Vec<Entity> = Vec::new();
    content.push(entity);
    Ok(Document::new(path.duplicate(), media_type, content))
}

impl JsonFileSource {
    /// An empty source of files under the current directory, written
    /// compactly.
    pub fn new() -> (s: Self)
        ensures
            s@ == Seq::<Document>::empty(),
            s.options_spec().path == current_dir_path(),
            !s.options_spec().pretty_print,
    {
        JsonFileSource::with_options(JsonFileSourceOptions::default())
    }

    pub fn with_options(options: JsonFileSourceOptions) -> (s: Self)
        ensures
            s@ == Seq::<Document>::empty(),
            s.options_spec() == options,
    {
        JsonFileSource { options, cache: Store::new() }
    }

    pub closed spec fn options_spec(&self) -> JsonFileSourceOptions {
        self.options
    }

    pub fn options(&self) -> (o: &JsonFileSourceOptions)
        ensures
            *o == self.options_spec(),
    {
        &self.options
    }

    /// Empties the cache.
    pub fn clear(&mut self) -> (r: Result<(), ReadError>)
        ensures
            r is Ok,
            final(self)@ == Seq::<Document>::empty(),
            final(self).options_spec() == old(self).options_spec(),
    {
        self.cache.clear();
        Ok(())
    }

    /// The file a path names; only file paths are accepted.
    pub fn full_path(&self, path: &Path) -> (r: Result<PathBuf, ReadError>)
        ensures
            path is File <==> r is Ok,
            path is File ==> r == Ok::<PathBuf, ReadError>(resolved_path(self.options_spec().path, path.text_spec())),
            !(path is File) ==> (r matches Err(ReadError::Custom(m)) && m@ == "JsonFileSource only supports File paths"@),
    {
        proof {
            reveal_strlit("JsonFileSource");
            reveal_strlit(" only supports File paths");
            reveal_strlit("JsonFileSource only supports File paths");
            assert("JsonFileSource"@ + " only supports File paths"@ =~= "JsonFileSource only supports File paths"@);
        }
        resolve(&self.options.path, path, "JsonFileSource")
    }

    /// The cached document of a path, if any.
    pub fn cached(&self, path: &Path) -> (r: Option<Document>)
        ensures
            match lookup(self@, path.text_spec()) {
                Some(d) => r matches Some(x) && x.same_spec(d),
                None => r is None,
            },
    {
        let id = path.to_string();
        match self.cache.get(&id) {
            Some(d) => Some(d.duplicate()),
            None => None,
        }
    }

    /// The document read from the file `full_path` for `path` (see
    /// `file_document`; the media type comes from the file's extension). It
    /// is cached. A failed read or a refused document changes nothing.
    pub fn loaded(&mut self, path: &Path, full_path: &str, read: Result<String, std::io::Error>) -> (r: Result<Document, ReadError>)
        ensures
            final(self).options_spec() == old(self).options_spec(),
            keys_distinct(final(self)@),
            read is Err ==> (r matches Err(ReadError::IO(e)) && read == Err::<String, std::io::Error>(e)),
            r is Err ==> final(self)@ == old(self)@,
            r matches Ok(d) ==> exists|c: Document| c.same_spec(d) && final(self)@ == stored(old(self)@, c),
            read matches Ok(text) ==> (r is Ok <==> file_accepted(MediaType::from_ext_spec(path_extension_of(full_path@)), text@)),
            read matches Ok(text) ==> (r matches Ok(d) ==> file_document_spec(d, *path,
                MediaType::from_ext_spec(path_extension_of(full_path@)), text@)),
            read is Ok && content_kind_spec(MediaType::from_ext_spec(path_extension_of(full_path@))) is None ==> (
                r matches Err(ReadError::Custom(m)) && m@ == "Unsupported media type: "@
                + MediaType::from_ext_spec(path_extension_of(full_path@)).mime_spec()),
            read matches Ok(text) ==> (content_kind_spec(MediaType::from_ext_spec(path_extension_of(full_path@)))
                == Some(ContentKind::Json) ==> (json_normal_of(text@) matches Err(e) ==> (
                r matches Err(ReadError::Custom(m)) && m@ == "JSON parse error: "@ + e))),
    {
        proof { use_type_invariant(&self.cache); }
        match read {
            Err(e) => Err(ReadError::IO(e)),
            Ok(text) => {
                let media_type = MediaType::from_path(full_path);
                match file_document(path, media_type, text) {
                    Err(e) => Err(e),
                    Ok(d) => {
                        let kept = d.duplicate();
                        let ghost c = d;
                        self.cache.put(d);
                        assert(c.same_spec(kept) && self@ == stored(old(self)@, c));
                        Ok(kept)
                    },
                }
            },
        }
    }

    /// The text to write for a document: its first entity as JSON
    /// (pretty-printed where the options ask) for JSON documents, its first
    /// entity's string for other text documents.
    pub fn write_text(&self, document: &Document) -> (r: Result<String, WriteError>)
        ensures
            document.content@.len() == 0 ==> (r matches Err(WriteError::Custom(m)) && m@ == "Document has no content"@),
            document.content@.len() > 0 ==> match content_kind_spec(document.media_type) {
                None => r matches Err(WriteError::Custom(m)) && m@ == "Unsupported media type: "@
                    + document.media_type.mime_spec(),
                Some(ContentKind::Json) => if self.options_spec().pretty_print {
                    match json_pretty_of(value_json_spec(document.content@[0].content)) {
                        Ok(t) => r matches Ok(x) && x@ == t,
                        Err(e) => r matches Err(WriteError::Custom(m)) && m@ == "JSON serialize error: "@ + e,
                    }
                } else {
                    r matches Ok(x) && x@ == value_json_spec(document.content@[0].content)
                },
                Some(ContentKind::Text) => match document.content@[0].content {
                    Value::String(s) => r matches Ok(x) && x@ == s@,
                    _ => r matches Err(WriteError::Custom(m)) && m@ == "Text content must be a string Value"@,
                },
            },
    {
        if document.content.len() == 0 {
            return Err(WriteError::Custom(String::from_str("Document has no content")));
        }
        let content = &document.content[0].content;
        match content_kind(document.media_type) {
            Err(m) => Err(WriteError::Custom(m)),
            Ok(ContentKind::Json) => {
                let t = value_json(content);
                if self.options.pretty_print {
                    match json_pretty(t.as_str()) {
                        Ok(p) => Ok(p),
                        Err(e) => Err(WriteError::Custom(String::from_str("JSON serialize error: ").concat(e.as_str()))),
                    }
                } else {
                    Ok(t)
                }
            },
            Ok(ContentKind::Text) => match content {
                Value::String(s) => Ok(s.clone()),
                _ => Err(WriteError::Custom(String::from_str("Text content must be a string Value"))),
            },
        }
    }

    /// Records the outcome of writing `document` to its file: cached where
    /// the write succeeded, else the failure is passed on and nothing changes.
    pub fn written(&mut self, document: Document, write: Result<(), std::io::Error>) -> (r: Result<(), WriteError>)
        ensures
            final(self).options_spec() == old(self).options_spec(),
            keys_distinct(final(self)@),
            write is Err ==> (r matches Err(WriteError::IO(e)) && write == Err::<(), std::io::Error>(e)),
            write is Err ==> final(self)@ == old(self)@,
            write is Ok ==> r is Ok && final(self)@ == stored(old(self)@, document),
    {
        proof { use_type_invariant(&self.cache); }
        match write {
            Err(e) => Err(WriteError::IO(e)),
            Ok(()) => {
                self.cache.put(document);
                Ok(())
            },
        }
    }

    /// Records the outcome of removing the file of `path`: the path leaves
    /// the cache whatever the outcome; a failure is passed on.
    pub fn deleted(&mut self, path: &Path, remove: Result<(), std::io::Error>) -> (r: Result<(), WriteError>)
        ensures
            final(self).options_spec() == old(self).options_spec(),
            keys_distinct(final(self)@),
            final(self)@ == removed(old(self)@, path.text_spec()),
            remove is Err ==> (r matches Err(WriteError::IO(e)) && remove == Err::<(), std::io::Error>(e)),
            remove is Ok ==> r is Ok,
    {
        let id = path.to_string();
        let _ = self.cache.take(&id);
        match remove {
            Err(e) => Err(WriteError::IO(e)),
            Ok(()) => Ok(()),
        }
    }
}

impl Default for JsonFileSource {
    fn default() -> (s: Self)
        ensures
            s@ == Seq::<Document>::empty(),
    {
        JsonFileSource::new()
    }
}

/// After `clear` nothing is cached, so `cached` gives `None` for every path
/// and every later read goes to the file again.
pub proof fn law_cleared_source_caches_nothing(source: JsonFileSource, path: Path)
    requires
        source@ == Seq::<Document>::empty(),
    ensures
        lookup(source@, path.text_spec()) is None,
{
}

} // verus!
