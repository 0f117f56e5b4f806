//! Media types: MIME names, text-likeness, serialization formats, and
//! inference from MIME strings and file extensions.

use vstd::prelude::*;
use crate::text::{lemma_normal_text, chars_eq, chars_of, lower, lower_spec, starts_with, starts_with_spec, trim, trim_spec};

verus! {

/// Serialization format a media type is read and written in.
#[derive(Debug, Clone, Copy, PartialEq, Eq, Structural, Hash)]
pub enum Format {
    Json,
    Yaml,
    Toml,
    Xml,
    Csv,
    Markdown,
    Html,
    Text,
    Binary,
}

/// The kind of content a record holds.
#[derive(Debug, Clone, Copy, PartialEq, Eq, Structural, Hash)]
pub enum MediaType {
    TextPlain,
    TextMarkdown,
    TextHtml,
    TextXml,
    TextCsv,
    TextToml,
    TextYaml,
    TextJson,
    CodeRust,
    CodeCSharp,
    CodeTypeScript,
    CodeJavaScript,
    CodePython,
    CodeGo,
    CodeJava,
    CodeKotlin,
    CodeSwift,
    CodeCpp,
    CodeC,
    CodeSql,
    CodeShell,
    CodeDockerfile,
    Pdf,
    Docx,
    Pptx,
    Xlsx,
    Parquet,
    Avro,
    ImagePng,
    ImageJpeg,
    ImageWebp,
    ImageGif,
    ImageSvg,
    AudioMp3,
    AudioWav,
    AudioM4a,
    VideoMp4,
    VideoWebm,
    ArchiveZip,
    ArchiveTar,
    ArchiveGzip,
    Text,
    Binary,
    Unknown,
}

impl Default for MediaType {
    fn default() -> (r: Self)
        ensures
            r == MediaType::Unknown,
    {
        MediaType::Unknown
    }
}

impl MediaType {
    /// The MIME name of the media type.
    pub open spec fn mime_spec(self) -> Seq<char> {
        match self {
            MediaType::TextPlain => "text/plain"@,
            MediaType::TextMarkdown => "text/markdown"@,
            MediaType::TextHtml => "text/html"@,
            MediaType::TextXml => "text/xml"@,
            MediaType::TextCsv => "text/csv"@,
            MediaType::TextToml => "application/toml"@,
            MediaType::TextYaml => "application/yaml"@,
            MediaType::TextJson => "application/json"@,
            MediaType::CodeRust => "text/x-rust"@,
            MediaType::CodeCSharp => "text/x-csharp"@,
            MediaType::CodeTypeScript => "text/x-typescript"@,
            MediaType::CodeJavaScript => "text/javascript"@,
            MediaType::CodePython => "text/x-python"@,
            MediaType::CodeGo => "text/x-go"@,
            MediaType::CodeJava => "text/x-java"@,
            MediaType::CodeKotlin => "text/x-kotlin"@,
            MediaType::CodeSwift => "text/x-swift"@,
            MediaType::CodeCpp => "text/x-c++"@,
            MediaType::CodeC => "text/x-c"@,
            MediaType::CodeSql => "application/sql"@,
            MediaType::CodeShell => "text/x-shellscript"@,
            MediaType::CodeDockerfile => "text/x-dockerfile-config"@,
            MediaType::Pdf => "application/pdf"@,
            MediaType::Docx => "application/vnd.openxmlformats-officedocument.wordprocessingml.document"@,
            MediaType::Pptx => "application/vnd.openxmlformats-officedocument.presentationml.presentation"@,
            MediaType::Xlsx => "application/vnd.openxmlformats-officedocument.spreadsheetml.sheet"@,
            MediaType::Parquet => "application/x-parquet"@,
            MediaType::Avro => "application/avro"@,
            MediaType::ImagePng => "image/png"@,
            MediaType::ImageJpeg => "image/jpeg"@,
            MediaType::ImageWebp => "image/webp"@,
            MediaType::ImageGif => "image/gif"@,
            MediaType::ImageSvg => "image/svg+xml"@,
            MediaType::AudioMp3 => "audio/mpeg"@,
            MediaType::AudioWav => "audio/wav"@,
            MediaType::AudioM4a => "audio/mp4"@,
            MediaType::VideoMp4 => "video/mp4"@,
            MediaType::VideoWebm => "video/webm"@,
            MediaType::ArchiveZip => "application/zip"@,
            MediaType::ArchiveTar => "application/x-tar"@,
            MediaType::ArchiveGzip => "application/gzip"@,
            MediaType::Text => "text/plain"@,
            MediaType::Binary => "application/octet-stream"@,
            MediaType::Unknown => "application/octet-stream"@,
        }
    }

    /// Whether content of this type is text.
    pub open spec fn textlike_spec(self) -> bool {
        self == MediaType::TextPlain || self == MediaType::TextMarkdown || self == MediaType::TextHtml || self == MediaType::TextXml || self == MediaType::TextCsv || self == MediaType::TextToml || self == MediaType::TextYaml || self == MediaType::TextJson || self == MediaType::CodeRust || self == MediaType::CodeCSharp || self == MediaType::CodeTypeScript || self == MediaType::CodeJavaScript || self == MediaType::CodePython || self == MediaType::CodeGo || self == MediaType::CodeJava || self == MediaType::CodeKotlin || self == MediaType::CodeSwift || self == MediaType::CodeCpp || self == MediaType::CodeC || self == MediaType::CodeSql || self == MediaType::CodeShell || self == MediaType::CodeDockerfile || self == MediaType::Text
    }

    /// The format content of this type is serialized in.
    pub open spec fn format_spec(self) -> Format {
        match self {
            MediaType::TextJson => Format::Json,
            MediaType::TextYaml => Format::Yaml,
            MediaType::TextToml => Format::Toml,
            MediaType::TextXml => Format::Xml,
            MediaType::TextCsv => Format::Csv,
            MediaType::TextMarkdown => Format::Markdown,
            MediaType::TextHtml => Format::Html,
            MediaType::TextPlain | MediaType::Text | MediaType::CodeRust | MediaType::CodeCSharp | MediaType::CodeTypeScript | MediaType::CodeJavaScript | MediaType::CodePython | MediaType::CodeGo | MediaType::CodeJava | MediaType::CodeKotlin | MediaType::CodeSwift | MediaType::CodeCpp | MediaType::CodeC | MediaType::CodeSql | MediaType::CodeShell | MediaType::CodeDockerfile => Format::Text,
            _ => Format::Binary,
        }
    }

    /// The media type a (lower-cased) file extension names.
    pub open spec fn from_lower_ext_spec(e: Seq<char>) -> MediaType {
        if e == "txt"@ {
            MediaType::TextPlain
        } else if e == "md"@ || e == "markdown"@ {
            MediaType::TextMarkdown
        } else if e == "html"@ || e == "htm"@ {
            MediaType::TextHtml
        } else if e == "xml"@ {
            MediaType::TextXml
        } else if e == "csv"@ {
            MediaType::TextCsv
        } else if e == "toml"@ {
            MediaType::TextToml
        } else if e == "yaml"@ || e == "yml"@ {
            MediaType::TextYaml
        } else if e == "json"@ {
            MediaType::TextJson
        } else if e == "rs"@ {
            MediaType::CodeRust
        } else if e == "cs"@ {
            MediaType::CodeCSharp
        } else if e == "ts"@ {
            MediaType::CodeTypeScript
        } else if e == "js"@ || e == "mjs"@ || e == "cjs"@ {
            MediaType::CodeJavaScript
        } else if e == "py"@ {
            MediaType::CodePython
        } else if e == "go"@ {
            MediaType::CodeGo
        } else if e == "java"@ {
            MediaType::CodeJava
        } else if e == "kt"@ || e == "kts"@ {
            MediaType::CodeKotlin
        } else if e == "swift"@ {
            MediaType::CodeSwift
        } else if e == "cpp"@ || e == "cc"@ || e == "cxx"@ || e == "hpp"@ || e == "hh"@ || e == "hxx"@ {
            MediaType::CodeCpp
        } else if e == "c"@ || e == "h"@ {
            MediaType::CodeC
        } else if e == "sql"@ {
            MediaType::CodeSql
        } else if e == "sh"@ || e == "bash"@ || e == "zsh"@ || e == "fish"@ {
            MediaType::CodeShell
        } else if e == "pdf"@ {
            MediaType::Pdf
        } else if e == "docx"@ {
            MediaType::Docx
        } else if e == "pptx"@ {
            MediaType::Pptx
        } else if e == "xlsx"@ {
            MediaType::Xlsx
        } else if e == "parquet"@ {
            MediaType::Parquet
        } else if e == "avro"@ {
            MediaType::Avro
        } else if e == "png"@ {
            MediaType::ImagePng
        } else if e == "jpg"@ || e == "jpeg"@ {
            MediaType::ImageJpeg
        } else if e == "webp"@ {
            MediaType::ImageWebp
        } else if e == "gif"@ {
            MediaType::ImageGif
        } else if e == "svg"@ {
            MediaType::ImageSvg
        } else if e == "mp3"@ {
            MediaType::AudioMp3
        } else if e == "wav"@ {
            MediaType::AudioWav
        } else if e == "m4a"@ {
            MediaType::AudioM4a
        } else if e == "mp4"@ {
            MediaType::VideoMp4
        } else if e == "webm"@ {
            MediaType::VideoWebm
        } else if e == "zip"@ {
            MediaType::ArchiveZip
        } else if e == "tar"@ {
            MediaType::ArchiveTar
        } else if e == "gz"@ || e == "gzip"@ {
            MediaType::ArchiveGzip
        } else {
            MediaType::Unknown
        }
    }

    /// The media type for an optional file extension, compared case-insensitively.
    pub open spec fn from_ext_spec(ext: Option<Seq<char>>) -> MediaType {
        match ext {
            Some(e) => MediaType::from_lower_ext_spec(lower_spec(e)),
            None => MediaType::Unknown,
        }
    }

    /// The media type a normalized (trimmed, lower-cased) MIME string names.
    pub open spec fn from_norm_mime_spec(m: Seq<char>) -> MediaType {
        if m == "text/plain"@ {
            MediaType::TextPlain
        } else if m == "text/markdown"@ {
            MediaType::TextMarkdown
        } else if m == "text/html"@ {
            MediaType::TextHtml
        } else if m == "text/xml"@ || m == "application/xml"@ {
            MediaType::TextXml
        } else if m == "text/csv"@ {
            MediaType::TextCsv
        } else if m == "application/toml"@ {
            MediaType::TextToml
        } else if m == "application/yaml"@ || m == "text/yaml"@ {
            MediaType::TextYaml
        } else if m == "application/json"@ || m == "text/json"@ {
            MediaType::TextJson
        } else if m == "application/pdf"@ {
            MediaType::Pdf
        } else if m == "application/octet-stream"@ {
            MediaType::Binary
        } else if m == "image/png"@ {
            MediaType::ImagePng
        } else if m == "image/jpeg"@ {
            MediaType::ImageJpeg
        } else if m == "image/webp"@ {
            MediaType::ImageWebp
        } else if m == "image/gif"@ {
            MediaType::ImageGif
        } else if m == "image/svg+xml"@ {
            MediaType::ImageSvg
        } else if m == "audio/mpeg"@ {
            MediaType::AudioMp3
        } else if m == "audio/wav"@ {
            MediaType::AudioWav
        } else if m == "audio/mp4"@ {
            MediaType::AudioM4a
        } else if m == "video/mp4"@ {
            MediaType::VideoMp4
        } else if m == "video/webm"@ {
            MediaType::VideoWebm
        } else if m == "application/zip"@ {
            MediaType::ArchiveZip
        } else if m == "application/x-tar"@ {
            MediaType::ArchiveTar
        } else if m == "application/gzip"@ {
            MediaType::ArchiveGzip
        } else if starts_with_spec(m, "text/"@) {
            MediaType::Text
        } else {
            MediaType::Unknown
        }
    }

    /// The media type a MIME string names, ignoring surrounding whitespace and case.
    pub open spec fn from_mime_spec(mime: Seq<char>) -> MediaType {
        MediaType::from_norm_mime_spec(lower_spec(trim_spec(mime)))
    }

    pub fn as_mime_str(self) -> (r: &'static str)
        ensures
            r@ == self.mime_spec(),
    {
        match self {
            MediaType::TextPlain => "text/plain",
            MediaType::TextMarkdown => "text/markdown",
            MediaType::TextHtml => "text/html",
            MediaType::TextXml => "text/xml",
            MediaType::TextCsv => "text/csv",
            MediaType::TextToml => "application/toml",
            MediaType::TextYaml => "application/yaml",
            MediaType::TextJson => "application/json",
            MediaType::CodeRust => "text/x-rust",
            MediaType::CodeCSharp => "text/x-csharp",
            MediaType::CodeTypeScript => "text/x-typescript",
            MediaType::CodeJavaScript => "text/javascript",
            MediaType::CodePython => "text/x-python",
            MediaType::CodeGo => "text/x-go",
            MediaType::CodeJava => "text/x-java",
            MediaType::CodeKotlin => "text/x-kotlin",
            MediaType::CodeSwift => "text/x-swift",
            MediaType::CodeCpp => "text/x-c++",
            MediaType::CodeC => "text/x-c",
            MediaType::CodeSql => "application/sql",
            MediaType::CodeShell => "text/x-shellscript",
            MediaType::CodeDockerfile => "text/x-dockerfile-config",
            MediaType::Pdf => "application/pdf",
            MediaType::Docx => "application/vnd.openxmlformats-officedocument.wordprocessingml.document",
            MediaType::Pptx => "application/vnd.openxmlformats-officedocument.presentationml.presentation",
            MediaType::Xlsx => "application/vnd.openxmlformats-officedocument.spreadsheetml.sheet",
            MediaType::Parquet => "application/x-parquet",
            MediaType::Avro => "application/avro",
            MediaType::ImagePng => "image/png",
            MediaType::ImageJpeg => "image/jpeg",
            MediaType::ImageWebp => "image/webp",
            MediaType::ImageGif => "image/gif",
            MediaType::ImageSvg => "image/svg+xml",
            MediaType::AudioMp3 => "audio/mpeg",
            MediaType::AudioWav => "audio/wav",
            MediaType::AudioM4a => "audio/mp4",
            MediaType::VideoMp4 => "video/mp4",
            MediaType::VideoWebm => "video/webm",
            MediaType::ArchiveZip => "application/zip",
            MediaType::ArchiveTar => "application/x-tar",
            MediaType::ArchiveGzip => "application/gzip",
            MediaType::Text => "text/plain",
            MediaType::Binary => "application/octet-stream",
            MediaType::Unknown => "application/octet-stream",
        }
    }

    pub fn is_textlike(self) -> (b: bool)
        ensures
            b == self.textlike_spec(),
    {
        match self {
            MediaType::TextPlain | MediaType::TextMarkdown | MediaType::TextHtml | MediaType::TextXml | MediaType::TextCsv | MediaType::TextToml | MediaType::TextYaml | MediaType::TextJson | MediaType::CodeRust | MediaType::CodeCSharp | MediaType::CodeTypeScript | MediaType::CodeJavaScript | MediaType::CodePython | MediaType::CodeGo | MediaType::CodeJava | MediaType::CodeKotlin | MediaType::CodeSwift | MediaType::CodeCpp | MediaType::CodeC | MediaType::CodeSql | MediaType::CodeShell | MediaType::CodeDockerfile | MediaType::Text => true,
            _ => false,
        }
    }

    /// The media type a record saved in `format` is stored with.
    pub fn for_saved_format(format: Format) -> (m: Self)
        ensures
            m == match format {
                Format::Json => MediaType::TextJson,
                Format::Yaml => MediaType::TextYaml,
                Format::Toml => MediaType::TextToml,
                _ => MediaType::TextPlain,
            },
            m.format_spec() == format || m == MediaType::TextPlain,
    {
        match format {
            Format::Json => MediaType::TextJson,
            Format::Yaml => MediaType::TextYaml,
            Format::Toml => MediaType::TextToml,
            _ => MediaType::TextPlain,
        }
    }

    pub fn format(self) -> (f: Format)
        ensures
            f == self.format_spec(),
    {
        match self {
            MediaType::TextJson => Format::Json,
            MediaType::TextYaml => Format::Yaml,
            MediaType::TextToml => Format::Toml,
            MediaType::TextXml => Format::Xml,
            MediaType::TextCsv => Format::Csv,
            MediaType::TextMarkdown => Format::Markdown,
            MediaType::TextHtml => Format::Html,
            MediaType::TextPlain | MediaType::Text | MediaType::CodeRust | MediaType::CodeCSharp | MediaType::CodeTypeScript | MediaType::CodeJavaScript | MediaType::CodePython | MediaType::CodeGo | MediaType::CodeJava | MediaType::CodeKotlin | MediaType::CodeSwift | MediaType::CodeCpp | MediaType::CodeC | MediaType::CodeSql | MediaType::CodeShell | MediaType::CodeDockerfile => Format::Text,
            _ => Format::Binary,
        }
    }

    /// Media type for a file extension (without the dot), compared
    /// case-insensitively; `None` (no extension) and unknown extensions give
    /// `Unknown`.
    pub fn from_extension(ext: Option<&str>) -> (r: Self)
        ensures
            r == MediaType::from_ext_spec(match ext { Some(e) => Some(e@), None => None }),
    {
        match ext {
            None => MediaType::Unknown,
            Some(e) => {
                let raw = chars_of(e);
                let l = lower(&raw);
                if chars_eq(&l, "txt") {
                    MediaType::TextPlain
                } else if chars_eq(&l, "md") || chars_eq(&l, "markdown") {
                    MediaType::TextMarkdown
                } else if chars_eq(&l, "html") || chars_eq(&l, "htm") {
                    MediaType::TextHtml
                } else if chars_eq(&l, "xml") {
                    MediaType::TextXml
                } else if chars_eq(&l, "csv") {
                    MediaType::TextCsv
                } else if chars_eq(&l, "toml") {
                    MediaType::TextToml
                } else if chars_eq(&l, "yaml") || chars_eq(&l, "yml") {
                    MediaType::TextYaml
                } else if chars_eq(&l, "json") {
                    MediaType::TextJson
                } else if chars_eq(&l, "rs") {
                    MediaType::CodeRust
                } else if chars_eq(&l, "cs") {
                    MediaType::CodeCSharp
                } else if chars_eq(&l, "ts") {
                    MediaType::CodeTypeScript
                } else if chars_eq(&l, "js") || chars_eq(&l, "mjs") || chars_eq(&l, "cjs") {
                    MediaType::CodeJavaScript
                } else if chars_eq(&l, "py") {
                    MediaType::CodePython
                } else if chars_eq(&l, "go") {
                    MediaType::CodeGo
                } else if chars_eq(&l, "java") {
                    MediaType::CodeJava
                } else if chars_eq(&l, "kt") || chars_eq(&l, "kts") {
                    MediaType::CodeKotlin
                } else if chars_eq(&l, "swift") {
                    MediaType::CodeSwift
                } else if chars_eq(&l, "cpp") || chars_eq(&l, "cc") || chars_eq(&l, "cxx") || chars_eq(&l, "hpp") || chars_eq(&l, "hh") || chars_eq(&l, "hxx") {
                    MediaType::CodeCpp
                } else if chars_eq(&l, "c") || chars_eq(&l, "h") {
                    MediaType::CodeC
                } else if chars_eq(&l, "sql") {
                    MediaType::CodeSql
                } else if chars_eq(&l, "sh") || chars_eq(&l, "bash") || chars_eq(&l, "zsh") || chars_eq(&l, "fish") {
                    MediaType::CodeShell
                } else if chars_eq(&l, "pdf") {
                    MediaType::Pdf
                } else if chars_eq(&l, "docx") {
                    MediaType::Docx
                } else if chars_eq(&l, "pptx") {
                    MediaType::Pptx
                } else if chars_eq(&l, "xlsx") {
                    MediaType::Xlsx
                } else if chars_eq(&l, "parquet") {
                    MediaType::Parquet
                } else if chars_eq(&l, "avro") {
                    MediaType::Avro
                } else if chars_eq(&l, "png") {
                    MediaType::ImagePng
                } else if chars_eq(&l, "jpg") || chars_eq(&l, "jpeg") {
                    MediaType::ImageJpeg
                } else if chars_eq(&l, "webp") {
                    MediaType::ImageWebp
                } else if chars_eq(&l, "gif") {
                    MediaType::ImageGif
                } else if chars_eq(&l, "svg") {
                    MediaType::ImageSvg
                } else if chars_eq(&l, "mp3") {
                    MediaType::AudioMp3
                } else if chars_eq(&l, "wav") {
                    MediaType::AudioWav
                } else if chars_eq(&l, "m4a") {
                    MediaType::AudioM4a
                } else if chars_eq(&l, "mp4") {
                    MediaType::VideoMp4
                } else if chars_eq(&l, "webm") {
                    MediaType::VideoWebm
                } else if chars_eq(&l, "zip") {
                    MediaType::ArchiveZip
                } else if chars_eq(&l, "tar") {
                    MediaType::ArchiveTar
                } else if chars_eq(&l, "gz") || chars_eq(&l, "gzip") {
                    MediaType::ArchiveGzip
                } else {
                    MediaType::Unknown
                }
            }
        }
    }

    /// Best-effort inference from a file path's extension.
    pub fn from_path(path: &str) -> (r: Self)
        ensures
            r == MediaType::from_ext_spec(path_extension_of(path@)),
    {
        let ext = path_extension(path);
        match ext {
            Some(e) => MediaType::from_extension(Some(e.as_str())),
            None => MediaType::from_extension(None),
        }
    }

    /// Media type named by a MIME string; unknown `text/...` names give
    /// `Text`, any other unknown name `Unknown`.
    pub fn from_mime_str(mime: &str) -> (r: Self)
        ensures
            r == MediaType::from_mime_spec(mime@),
    {
        let raw = chars_of(mime);
        let t = trim(&raw);
        let m = lower(&t);
        if chars_eq(&m, "text/plain") {
            MediaType::TextPlain
        } else if chars_eq(&m, "text/markdown") {
            MediaType::TextMarkdown
        } else if chars_eq(&m, "text/html") {
            MediaType::TextHtml
        } else if chars_eq(&m, "text/xml") || chars_eq(&m, "application/xml") {
            MediaType::TextXml
        } else if chars_eq(&m, "text/csv") {
            MediaType::TextCsv
        } else if chars_eq(&m, "application/toml") {
            MediaType::TextToml
        } else if chars_eq(&m, "application/yaml") || chars_eq(&m, "text/yaml") {
            MediaType::TextYaml
        } else if chars_eq(&m, "application/json") || chars_eq(&m, "text/json") {
            MediaType::TextJson
        } else if chars_eq(&m, "application/pdf") {
            MediaType::Pdf
        } else if chars_eq(&m, "application/octet-stream") {
            MediaType::Binary
        } else if chars_eq(&m, "image/png") {
            MediaType::ImagePng
        } else if chars_eq(&m, "image/jpeg") {
            MediaType::ImageJpeg
        } else if chars_eq(&m, "image/webp") {
            MediaType::ImageWebp
        } else if chars_eq(&m, "image/gif") {
            MediaType::ImageGif
        } else if chars_eq(&m, "image/svg+xml") {
            MediaType::ImageSvg
        } else if chars_eq(&m, "audio/mpeg") {
            MediaType::AudioMp3
        } else if chars_eq(&m, "audio/wav") {
            MediaType::AudioWav
        } else if chars_eq(&m, "audio/mp4") {
            MediaType::AudioM4a
        } else if chars_eq(&m, "video/mp4") {
            MediaType::VideoMp4
        } else if chars_eq(&m, "video/webm") {
            MediaType::VideoWebm
        } else if chars_eq(&m, "application/zip") {
            MediaType::ArchiveZip
        } else if chars_eq(&m, "application/x-tar") {
            MediaType::ArchiveTar
        } else if chars_eq(&m, "application/gzip") {
            MediaType::ArchiveGzip
        } else if starts_with(&m, "text/") {
            MediaType::Text
        } else {
            MediaType::Unknown
        }
    }

    /// The MIME name, as text.
    pub fn to_string(&self) -> (s: String)
        ensures
            s@ == self.mime_spec(),
    {
        String::from_str(self.as_mime_str())
    }
}

/// The extension `std::path::Path::extension` finds in a path: the part of
/// the final file name after its last `.`.
pub uninterp spec fn path_extension_of(path: Seq<char>) -> Option<Seq<char>>;

/// Calls `std::path::Path::extension` on `path`. Trusted: the result is the
/// named value `path_extension_of(path)`; that it is a function of the path
/// text alone is what is assumed. Extensions that are not valid UTF-8 cannot
/// arise from a `&str`.
#[verifier::external_body]
fn path_extension(path: &str) -> (r: Option<String>)
    ensures
        match r {
            Some(e) => path_extension_of(path@) == Some(e@),
            None => path_extension_of(path@) == None::<Seq<char>>,
        },
{
    std::path::Path::new(path).extension().and_then(|s| s.to_str()).map(|s| s.to_string())
}

} // verus!
verus! {

impl MediaType {
    /// The media type a media type's MIME name reads back as: itself, except
    /// where several types share a name or a name is not read back.
    pub open spec fn mime_round_trip_spec(self) -> MediaType {
        match self {
            MediaType::TextPlain => MediaType::TextPlain,
            MediaType::TextMarkdown => MediaType::TextMarkdown,
            MediaType::TextHtml => MediaType::TextHtml,
            MediaType::TextXml => MediaType::TextXml,
            MediaType::TextCsv => MediaType::TextCsv,
            MediaType::TextToml => MediaType::TextToml,
            MediaType::TextYaml => MediaType::TextYaml,
            MediaType::TextJson => MediaType::TextJson,
            MediaType::CodeRust => MediaType::Text,
            MediaType::CodeCSharp => MediaType::Text,
            MediaType::CodeTypeScript => MediaType::Text,
            MediaType::CodeJavaScript => MediaType::Text,
            MediaType::CodePython => MediaType::Text,
            MediaType::CodeGo => MediaType::Text,
            MediaType::CodeJava => MediaType::Text,
            MediaType::CodeKotlin => MediaType::Text,
            MediaType::CodeSwift => MediaType::Text,
            MediaType::CodeCpp => MediaType::Text,
            MediaType::CodeC => MediaType::Text,
            MediaType::CodeSql => MediaType::Unknown,
            MediaType::CodeShell => MediaType::Text,
            MediaType::CodeDockerfile => MediaType::Text,
            MediaType::Pdf => MediaType::Pdf,
            MediaType::Docx => MediaType::Unknown,
            MediaType::Pptx => MediaType::Unknown,
            MediaType::Xlsx => MediaType::Unknown,
            MediaType::Parquet => MediaType::Unknown,
            MediaType::Avro => MediaType::Unknown,
            MediaType::ImagePng => MediaType::ImagePng,
            MediaType::ImageJpeg => MediaType::ImageJpeg,
            MediaType::ImageWebp => MediaType::ImageWebp,
            MediaType::ImageGif => MediaType::ImageGif,
            MediaType::ImageSvg => MediaType::ImageSvg,
            MediaType::AudioMp3 => MediaType::AudioMp3,
            MediaType::AudioWav => MediaType::AudioWav,
            MediaType::AudioM4a => MediaType::AudioM4a,
            MediaType::VideoMp4 => MediaType::VideoMp4,
            MediaType::VideoWebm => MediaType::VideoWebm,
            MediaType::ArchiveZip => MediaType::ArchiveZip,
            MediaType::ArchiveTar => MediaType::ArchiveTar,
            MediaType::ArchiveGzip => MediaType::ArchiveGzip,
            MediaType::Text => MediaType::TextPlain,
            MediaType::Binary => MediaType::Binary,
            MediaType::Unknown => MediaType::Binary,
        }
    }
}

proof fn lemma_mime_round_trip_TextPlain()
    ensures
        MediaType::from_mime_spec(MediaType::TextPlain.mime_spec()) == MediaType::TextPlain.mime_round_trip_spec(),
{
    reveal_strlit("application/gzip");
    reveal_strlit("application/json");
    reveal_strlit("application/octet-stream");
    reveal_strlit("application/pdf");
    reveal_strlit("application/toml");
    reveal_strlit("application/x-tar");
    reveal_strlit("application/xml");
    reveal_strlit("application/yaml");
    reveal_strlit("application/zip");
    reveal_strlit("audio/mp4");
    reveal_strlit("audio/mpeg");
    reveal_strlit("audio/wav");
    reveal_strlit("image/gif");
    reveal_strlit("image/jpeg");
    reveal_strlit("image/png");
    reveal_strlit("image/svg+xml");
    reveal_strlit("image/webp");
    reveal_strlit("text/");
    reveal_strlit("text/csv");
    reveal_strlit("text/html");
    reveal_strlit("text/json");
    reveal_strlit("text/markdown");
    reveal_strlit("text/plain");
    reveal_strlit("text/xml");
    reveal_strlit("text/yaml");
    reveal_strlit("video/mp4");
    reveal_strlit("video/webm");
    lemma_normal_text("text/plain"@);
    assert("text/plain"@.subrange(0, 5) =~= "text/"@);
    assert("text/plain"@[0] != "audio/mpeg"@[0]);
    assert("text/plain"@[0] != "image/jpeg"@[0]);
    assert("text/plain"@[0] != "image/webp"@[0]);
    assert("text/plain"@[0] != "video/webm"@[0]);
}

proof fn lemma_mime_round_trip_TextMarkdown()
    ensures
        MediaType::from_mime_spec(MediaType::TextMarkdown.mime_spec()) == MediaType::TextMarkdown.mime_round_trip_spec(),
{
    reveal_strlit("application/gzip");
    reveal_strlit("application/json");
    reveal_strlit("application/octet-stream");
    reveal_strlit("application/pdf");
    reveal_strlit("application/toml");
    reveal_strlit("application/x-tar");
    reveal_strlit("application/xml");
    reveal_strlit("application/yaml");
    reveal_strlit("application/zip");
    reveal_strlit("audio/mp4");
    reveal_strlit("audio/mpeg");
    reveal_strlit("audio/wav");
    reveal_strlit("image/gif");
    reveal_strlit("image/jpeg");
    reveal_strlit("image/png");
    reveal_strlit("image/svg+xml");
    reveal_strlit("image/webp");
    reveal_strlit("text/");
    reveal_strlit("text/csv");
    reveal_strlit("text/html");
    reveal_strlit("text/json");
    reveal_strlit("text/markdown");
    reveal_strlit("text/plain");
    reveal_strlit("text/xml");
    reveal_strlit("text/yaml");
    reveal_strlit("video/mp4");
    reveal_strlit("video/webm");
    lemma_normal_text("text/markdown"@);
    assert("text/markdown"@.subrange(0, 5) =~= "text/"@);
    assert("text/markdown"@[0] != "image/svg+xml"@[0]);
}

proof fn lemma_mime_round_trip_TextHtml()
    ensures
        MediaType::from_mime_spec(MediaType::TextHtml.mime_spec()) == MediaType::TextHtml.mime_round_trip_spec(),
{
    reveal_strlit("application/gzip");
    reveal_strlit("application/json");
    reveal_strlit("application/octet-stream");
    reveal_strlit("application/pdf");
    reveal_strlit("application/toml");
    reveal_strlit("application/x-tar");
    reveal_strlit("application/xml");
    reveal_strlit("application/yaml");
    reveal_strlit("application/zip");
    reveal_strlit("audio/mp4");
    reveal_strlit("audio/mpeg");
    reveal_strlit("audio/wav");
    reveal_strlit("image/gif");
    reveal_strlit("image/jpeg");
    reveal_strlit("image/png");
    reveal_strlit("image/svg+xml");
    reveal_strlit("image/webp");
    reveal_strlit("text/");
    reveal_strlit("text/csv");
    reveal_strlit("text/html");
    reveal_strlit("text/json");
    reveal_strlit("text/markdown");
    reveal_strlit("text/plain");
    reveal_strlit("text/xml");
    reveal_strlit("text/yaml");
    reveal_strlit("video/mp4");
    reveal_strlit("video/webm");
    lemma_normal_text("text/html"@);
    assert("text/html"@.subrange(0, 5) =~= "text/"@);
    assert("text/html"@[0] != "audio/mp4"@[0]);
    assert("text/html"@[0] != "audio/wav"@[0]);
    assert("text/html"@[0] != "image/gif"@[0]);
    assert("text/html"@[0] != "image/png"@[0]);
    assert("text/html"@[5] != "text/json"@[5]);
    assert("text/html"@[5] != "text/yaml"@[5]);
    assert("text/html"@[0] != "video/mp4"@[0]);
}

proof fn lemma_mime_round_trip_TextXml()
    ensures
        MediaType::from_mime_spec(MediaType::TextXml.mime_spec()) == MediaType::TextXml.mime_round_trip_spec(),
{
    reveal_strlit("application/gzip");
    reveal_strlit("application/json");
    reveal_strlit("application/octet-stream");
    reveal_strlit("application/pdf");
    reveal_strlit("application/toml");
    reveal_strlit("application/x-tar");
    reveal_strlit("application/xml");
    reveal_strlit("application/yaml");
    reveal_strlit("application/zip");
    reveal_strlit("audio/mp4");
    reveal_strlit("audio/mpeg");
    reveal_strlit("audio/wav");
    reveal_strlit("image/gif");
    reveal_strlit("image/jpeg");
    reveal_strlit("image/png");
    reveal_strlit("image/svg+xml");
    reveal_strlit("image/webp");
    reveal_strlit("text/");
    reveal_strlit("text/csv");
    reveal_strlit("text/html");
    reveal_strlit("text/json");
    reveal_strlit("text/markdown");
    reveal_strlit("text/plain");
    reveal_strlit("text/xml");
    reveal_strlit("text/yaml");
    reveal_strlit("video/mp4");
    reveal_strlit("video/webm");
    lemma_normal_text("text/xml"@);
    assert("text/xml"@.subrange(0, 5) =~= "text/"@);
    assert("text/xml"@[5] != "text/csv"@[5]);
}

proof fn lemma_mime_round_trip_TextCsv()
    ensures
        MediaType::from_mime_spec(MediaType::TextCsv.mime_spec()) == MediaType::TextCsv.mime_round_trip_spec(),
{
    reveal_strlit("application/gzip");
    reveal_strlit("application/json");
    reveal_strlit("application/octet-stream");
    reveal_strlit("application/pdf");
    reveal_strlit("application/toml");
    reveal_strlit("application/x-tar");
    reveal_strlit("application/xml");
    reveal_strlit("application/yaml");
    reveal_strlit("application/zip");
    reveal_strlit("audio/mp4");
    reveal_strlit("audio/mpeg");
    reveal_strlit("audio/wav");
    reveal_strlit("image/gif");
    reveal_strlit("image/jpeg");
    reveal_strlit("image/png");
    reveal_strlit("image/svg+xml");
    reveal_strlit("image/webp");
    reveal_strlit("text/");
    reveal_strlit("text/csv");
    reveal_strlit("text/html");
    reveal_strlit("text/json");
    reveal_strlit("text/markdown");
    reveal_strlit("text/plain");
    reveal_strlit("text/xml");
    reveal_strlit("text/yaml");
    reveal_strlit("video/mp4");
    reveal_strlit("video/webm");
    lemma_normal_text("text/csv"@);
    assert("text/csv"@.subrange(0, 5) =~= "text/"@);
    assert("text/csv"@[5] != "text/xml"@[5]);
}

proof fn lemma_mime_round_trip_TextToml()
    ensures
        MediaType::from_mime_spec(MediaType::TextToml.mime_spec()) == MediaType::TextToml.mime_round_trip_spec(),
{
    reveal_strlit("application/gzip");
    reveal_strlit("application/json");
    reveal_strlit("application/octet-stream");
    reveal_strlit("application/pdf");
    reveal_strlit("application/toml");
    reveal_strlit("application/x-tar");
    reveal_strlit("application/xml");
    reveal_strlit("application/yaml");
    reveal_strlit("application/zip");
    reveal_strlit("audio/mp4");
    reveal_strlit("audio/mpeg");
    reveal_strlit("audio/wav");
    reveal_strlit("image/gif");
    reveal_strlit("image/jpeg");
    reveal_strlit("image/png");
    reveal_strlit("image/svg+xml");
    reveal_strlit("image/webp");
    reveal_strlit("text/");
    reveal_strlit("text/csv");
    reveal_strlit("text/html");
    reveal_strlit("text/json");
    reveal_strlit("text/markdown");
    reveal_strlit("text/plain");
    reveal_strlit("text/xml");
    reveal_strlit("text/yaml");
    reveal_strlit("video/mp4");
    reveal_strlit("video/webm");
    lemma_normal_text("application/toml"@);
    assert("application/toml"@.subrange(0, 5)[0] != "text/"@[0]);
    assert("application/toml"@[12] != "application/gzip"@[12]);
    assert("application/toml"@[12] != "application/json"@[12]);
    assert("application/toml"@[12] != "application/yaml"@[12]);
}

proof fn lemma_mime_round_trip_TextYaml()
    ensures
        MediaType::from_mime_spec(MediaType::TextYaml.mime_spec()) == MediaType::TextYaml.mime_round_trip_spec(),
{
    reveal_strlit("application/gzip");
    reveal_strlit("application/json");
    reveal_strlit("application/octet-stream");
    reveal_strlit("application/pdf");
    reveal_strlit("application/toml");
    reveal_strlit("application/x-tar");
    reveal_strlit("application/xml");
    reveal_strlit("application/yaml");
    reveal_strlit("application/zip");
    reveal_strlit("audio/mp4");
    reveal_strlit("audio/mpeg");
    reveal_strlit("audio/wav");
    reveal_strlit("image/gif");
    reveal_strlit("image/jpeg");
    reveal_strlit("image/png");
    reveal_strlit("image/svg+xml");
    reveal_strlit("image/webp");
    reveal_strlit("text/");
    reveal_strlit("text/csv");
    reveal_strlit("text/html");
    reveal_strlit("text/json");
    reveal_strlit("text/markdown");
    reveal_strlit("text/plain");
    reveal_strlit("text/xml");
    reveal_strlit("text/yaml");
    reveal_strlit("video/mp4");
    reveal_strlit("video/webm");
    lemma_normal_text("application/yaml"@);
    assert("application/yaml"@.subrange(0, 5)[0] != "text/"@[0]);
    assert("application/yaml"@[12] != "application/gzip"@[12]);
    assert("application/yaml"@[12] != "application/json"@[12]);
    assert("application/yaml"@[12] != "application/toml"@[12]);
}

proof fn lemma_mime_round_trip_TextJson()
    ensures
        MediaType::from_mime_spec(MediaType::TextJson.mime_spec()) == MediaType::TextJson.mime_round_trip_spec(),
{
    reveal_strlit("application/gzip");
    reveal_strlit("application/json");
    reveal_strlit("application/octet-stream");
    reveal_strlit("application/pdf");
    reveal_strlit("application/toml");
    reveal_strlit("application/x-tar");
    reveal_strlit("application/xml");
    reveal_strlit("application/yaml");
    reveal_strlit("application/zip");
    reveal_strlit("audio/mp4");
    reveal_strlit("audio/mpeg");
    reveal_strlit("audio/wav");
    reveal_strlit("image/gif");
    reveal_strlit("image/jpeg");
    reveal_strlit("image/png");
    reveal_strlit("image/svg+xml");
    reveal_strlit("image/webp");
    reveal_strlit("text/");
    reveal_strlit("text/csv");
    reveal_strlit("text/html");
    reveal_strlit("text/json");
    reveal_strlit("text/markdown");
    reveal_strlit("text/plain");
    reveal_strlit("text/xml");
    reveal_strlit("text/yaml");
    reveal_strlit("video/mp4");
    reveal_strlit("video/webm");
    lemma_normal_text("application/json"@);
    assert("application/json"@.subrange(0, 5)[0] != "text/"@[0]);
    assert("application/json"@[12] != "application/gzip"@[12]);
    assert("application/json"@[12] != "application/toml"@[12]);
    assert("application/json"@[12] != "application/yaml"@[12]);
}

proof fn lemma_mime_round_trip_CodeRust()
    ensures
        MediaType::from_mime_spec(MediaType::CodeRust.mime_spec()) == MediaType::CodeRust.mime_round_trip_spec(),
{
    reveal_strlit("application/gzip");
    reveal_strlit("application/json");
    reveal_strlit("application/octet-stream");
    reveal_strlit("application/pdf");
    reveal_strlit("application/toml");
    reveal_strlit("application/x-tar");
    reveal_strlit("application/xml");
    reveal_strlit("application/yaml");
    reveal_strlit("application/zip");
    reveal_strlit("audio/mp4");
    reveal_strlit("audio/mpeg");
    reveal_strlit("audio/wav");
    reveal_strlit("image/gif");
    reveal_strlit("image/jpeg");
    reveal_strlit("image/png");
    reveal_strlit("image/svg+xml");
    reveal_strlit("image/webp");
    reveal_strlit("text/");
    reveal_strlit("text/csv");
    reveal_strlit("text/html");
    reveal_strlit("text/json");
    reveal_strlit("text/markdown");
    reveal_strlit("text/plain");
    reveal_strlit("text/x-rust");
    reveal_strlit("text/xml");
    reveal_strlit("text/yaml");
    reveal_strlit("video/mp4");
    reveal_strlit("video/webm");
    lemma_normal_text("text/x-rust"@);
    assert("text/x-rust"@.subrange(0, 5) =~= "text/"@);
}

proof fn lemma_mime_round_trip_CodeCSharp()
    ensures
        MediaType::from_mime_spec(MediaType::CodeCSharp.mime_spec()) == MediaType::CodeCSharp.mime_round_trip_spec(),
{
    reveal_strlit("application/gzip");
    reveal_strlit("application/json");
    reveal_strlit("application/octet-stream");
    reveal_strlit("application/pdf");
    reveal_strlit("application/toml");
    reveal_strlit("application/x-tar");
    reveal_strlit("application/xml");
    reveal_strlit("application/yaml");
    reveal_strlit("application/zip");
    reveal_strlit("audio/mp4");
    reveal_strlit("audio/mpeg");
    reveal_strlit("audio/wav");
    reveal_strlit("image/gif");
    reveal_strlit("image/jpeg");
    reveal_strlit("image/png");
    reveal_strlit("image/svg+xml");
    reveal_strlit("image/webp");
    reveal_strlit("text/");
    reveal_strlit("text/csv");
    reveal_strlit("text/html");
    reveal_strlit("text/json");
    reveal_strlit("text/markdown");
    reveal_strlit("text/plain");
    reveal_strlit("text/x-csharp");
    reveal_strlit("text/xml");
    reveal_strlit("text/yaml");
    reveal_strlit("video/mp4");
    reveal_strlit("video/webm");
    lemma_normal_text("text/x-csharp"@);
    assert("text/x-csharp"@.subrange(0, 5) =~= "text/"@);
    assert("text/x-csharp"@[0] != "image/svg+xml"@[0]);
    assert("text/x-csharp"@[5] != "text/markdown"@[5]);
}

proof fn lemma_mime_round_trip_CodeTypeScript()
    ensures
        MediaType::from_mime_spec(MediaType::CodeTypeScript.mime_spec()) == MediaType::CodeTypeScript.mime_round_trip_spec(),
{
    reveal_strlit("application/gzip");
    reveal_strlit("application/json");
    reveal_strlit("application/octet-stream");
    reveal_strlit("application/pdf");
    reveal_strlit("application/toml");
    reveal_strlit("application/x-tar");
    reveal_strlit("application/xml");
    reveal_strlit("application/yaml");
    reveal_strlit("application/zip");
    reveal_strlit("audio/mp4");
    reveal_strlit("audio/mpeg");
    reveal_strlit("audio/wav");
    reveal_strlit("image/gif");
    reveal_strlit("image/jpeg");
    reveal_strlit("image/png");
    reveal_strlit("image/svg+xml");
    reveal_strlit("image/webp");
    reveal_strlit("text/");
    reveal_strlit("text/csv");
    reveal_strlit("text/html");
    reveal_strlit("text/json");
    reveal_strlit("text/markdown");
    reveal_strlit("text/plain");
    reveal_strlit("text/x-typescript");
    reveal_strlit("text/xml");
    reveal_strlit("text/yaml");
    reveal_strlit("video/mp4");
    reveal_strlit("video/webm");
    lemma_normal_text("text/x-typescript"@);
    assert("text/x-typescript"@.subrange(0, 5) =~= "text/"@);
    assert("text/x-typescript"@[0] != "application/x-tar"@[0]);
}

proof fn lemma_mime_round_trip_CodeJavaScript()
    ensures
        MediaType::from_mime_spec(MediaType::CodeJavaScript.mime_spec()) == MediaType::CodeJavaScript.mime_round_trip_spec(),
{
    reveal_strlit("application/gzip");
    reveal_strlit("application/json");
    reveal_strlit("application/octet-stream");
    reveal_strlit("application/pdf");
    reveal_strlit("application/toml");
    reveal_strlit("application/x-tar");
    reveal_strlit("application/xml");
    reveal_strlit("application/yaml");
    reveal_strlit("application/zip");
    reveal_strlit("audio/mp4");
    reveal_strlit("audio/mpeg");
    reveal_strlit("audio/wav");
    reveal_strlit("image/gif");
    reveal_strlit("image/jpeg");
    reveal_strlit("image/png");
    reveal_strlit("image/svg+xml");
    reveal_strlit("image/webp");
    reveal_strlit("text/");
    reveal_strlit("text/csv");
    reveal_strlit("text/html");
    reveal_strlit("text/javascript");
    reveal_strlit("text/json");
    reveal_strlit("text/markdown");
    reveal_strlit("text/plain");
    reveal_strlit("text/xml");
    reveal_strlit("text/yaml");
    reveal_strlit("video/mp4");
    reveal_strlit("video/webm");
    lemma_normal_text("text/javascript"@);
    assert("text/javascript"@.subrange(0, 5) =~= "text/"@);
    assert("text/javascript"@[0] != "application/pdf"@[0]);
    assert("text/javascript"@[0] != "application/xml"@[0]);
    assert("text/javascript"@[0] != "application/zip"@[0]);
}

proof fn lemma_mime_round_trip_CodePython()
    ensures
        MediaType::from_mime_spec(MediaType::CodePython.mime_spec()) == MediaType::CodePython.mime_round_trip_spec(),
{
    reveal_strlit("application/gzip");
    reveal_strlit("application/json");
    reveal_strlit("application/octet-stream");
    reveal_strlit("application/pdf");
    reveal_strlit("application/toml");
    reveal_strlit("application/x-tar");
    reveal_strlit("application/xml");
    reveal_strlit("application/yaml");
    reveal_strlit("application/zip");
    reveal_strlit("audio/mp4");
    reveal_strlit("audio/mpeg");
    reveal_strlit("audio/wav");
    reveal_strlit("image/gif");
    reveal_strlit("image/jpeg");
    reveal_strlit("image/png");
    reveal_strlit("image/svg+xml");
    reveal_strlit("image/webp");
    reveal_strlit("text/");
    reveal_strlit("text/csv");
    reveal_strlit("text/html");
    reveal_strlit("text/json");
    reveal_strlit("text/markdown");
    reveal_strlit("text/plain");
    reveal_strlit("text/x-python");
    reveal_strlit("text/xml");
    reveal_strlit("text/yaml");
    reveal_strlit("video/mp4");
    reveal_strlit("video/webm");
    lemma_normal_text("text/x-python"@);
    assert("text/x-python"@.subrange(0, 5) =~= "text/"@);
    assert("text/x-python"@[0] != "image/svg+xml"@[0]);
    assert("text/x-python"@[5] != "text/markdown"@[5]);
}

proof fn lemma_mime_round_trip_CodeGo()
    ensures
        MediaType::from_mime_spec(MediaType::CodeGo.mime_spec()) == MediaType::CodeGo.mime_round_trip_spec(),
{
    reveal_strlit("application/gzip");
    reveal_strlit("application/json");
    reveal_strlit("application/octet-stream");
    reveal_strlit("application/pdf");
    reveal_strlit("application/toml");
    reveal_strlit("application/x-tar");
    reveal_strlit("application/xml");
    reveal_strlit("application/yaml");
    reveal_strlit("application/zip");
    reveal_strlit("audio/mp4");
    reveal_strlit("audio/mpeg");
    reveal_strlit("audio/wav");
    reveal_strlit("image/gif");
    reveal_strlit("image/jpeg");
    reveal_strlit("image/png");
    reveal_strlit("image/svg+xml");
    reveal_strlit("image/webp");
    reveal_strlit("text/");
    reveal_strlit("text/csv");
    reveal_strlit("text/html");
    reveal_strlit("text/json");
    reveal_strlit("text/markdown");
    reveal_strlit("text/plain");
    reveal_strlit("text/x-go");
    reveal_strlit("text/xml");
    reveal_strlit("text/yaml");
    reveal_strlit("video/mp4");
    reveal_strlit("video/webm");
    lemma_normal_text("text/x-go"@);
    assert("text/x-go"@.subrange(0, 5) =~= "text/"@);
    assert("text/x-go"@[0] != "audio/mp4"@[0]);
    assert("text/x-go"@[0] != "audio/wav"@[0]);
    assert("text/x-go"@[0] != "image/gif"@[0]);
    assert("text/x-go"@[0] != "image/png"@[0]);
    assert("text/x-go"@[5] != "text/html"@[5]);
    assert("text/x-go"@[5] != "text/json"@[5]);
    assert("text/x-go"@[5] != "text/yaml"@[5]);
    assert("text/x-go"@[0] != "video/mp4"@[0]);
}

proof fn lemma_mime_round_trip_CodeJava()
    ensures
        MediaType::from_mime_spec(MediaType::CodeJava.mime_spec()) == MediaType::CodeJava.mime_round_trip_spec(),
{
    reveal_strlit("application/gzip");
    reveal_strlit("application/json");
    reveal_strlit("application/octet-stream");
    reveal_strlit("application/pdf");
    reveal_strlit("application/toml");
    reveal_strlit("application/x-tar");
    reveal_strlit("application/xml");
    reveal_strlit("application/yaml");
    reveal_strlit("application/zip");
    reveal_strlit("audio/mp4");
    reveal_strlit("audio/mpeg");
    reveal_strlit("audio/wav");
    reveal_strlit("image/gif");
    reveal_strlit("image/jpeg");
    reveal_strlit("image/png");
    reveal_strlit("image/svg+xml");
    reveal_strlit("image/webp");
    reveal_strlit("text/");
    reveal_strlit("text/csv");
    reveal_strlit("text/html");
    reveal_strlit("text/json");
    reveal_strlit("text/markdown");
    reveal_strlit("text/plain");
    reveal_strlit("text/x-java");
    reveal_strlit("text/xml");
    reveal_strlit("text/yaml");
    reveal_strlit("video/mp4");
    reveal_strlit("video/webm");
    lemma_normal_text("text/x-java"@);
    assert("text/x-java"@.subrange(0, 5) =~= "text/"@);
}

proof fn lemma_mime_round_trip_CodeKotlin()
    ensures
        MediaType::from_mime_spec(MediaType::CodeKotlin.mime_spec()) == MediaType::CodeKotlin.mime_round_trip_spec(),
{
    reveal_strlit("application/gzip");
    reveal_strlit("application/json");
    reveal_strlit("application/octet-stream");
    reveal_strlit("application/pdf");
    reveal_strlit("application/toml");
    reveal_strlit("application/x-tar");
    reveal_strlit("application/xml");
    reveal_strlit("application/yaml");
    reveal_strlit("application/zip");
    reveal_strlit("audio/mp4");
    reveal_strlit("audio/mpeg");
    reveal_strlit("audio/wav");
    reveal_strlit("image/gif");
    reveal_strlit("image/jpeg");
    reveal_strlit("image/png");
    reveal_strlit("image/svg+xml");
    reveal_strlit("image/webp");
    reveal_strlit("text/");
    reveal_strlit("text/csv");
    reveal_strlit("text/html");
    reveal_strlit("text/json");
    reveal_strlit("text/markdown");
    reveal_strlit("text/plain");
    reveal_strlit("text/x-kotlin");
    reveal_strlit("text/xml");
    reveal_strlit("text/yaml");
    reveal_strlit("video/mp4");
    reveal_strlit("video/webm");
    lemma_normal_text("text/x-kotlin"@);
    assert("text/x-kotlin"@.subrange(0, 5) =~= "text/"@);
    assert("text/x-kotlin"@[0] != "image/svg+xml"@[0]);
    assert("text/x-kotlin"@[5] != "text/markdown"@[5]);
}

proof fn lemma_mime_round_trip_CodeSwift()
    ensures
        MediaType::from_mime_spec(MediaType::CodeSwift.mime_spec()) == MediaType::CodeSwift.mime_round_trip_spec(),
{
    reveal_strlit("application/gzip");
    reveal_strlit("application/json");
    reveal_strlit("application/octet-stream");
    reveal_strlit("application/pdf");
    reveal_strlit("application/toml");
    reveal_strlit("application/x-tar");
    reveal_strlit("application/xml");
    reveal_strlit("application/yaml");
    reveal_strlit("application/zip");
    reveal_strlit("audio/mp4");
    reveal_strlit("audio/mpeg");
    reveal_strlit("audio/wav");
    reveal_strlit("image/gif");
    reveal_strlit("image/jpeg");
    reveal_strlit("image/png");
    reveal_strlit("image/svg+xml");
    reveal_strlit("image/webp");
    reveal_strlit("text/");
    reveal_strlit("text/csv");
    reveal_strlit("text/html");
    reveal_strlit("text/json");
    reveal_strlit("text/markdown");
    reveal_strlit("text/plain");
    reveal_strlit("text/x-swift");
    reveal_strlit("text/xml");
    reveal_strlit("text/yaml");
    reveal_strlit("video/mp4");
    reveal_strlit("video/webm");
    lemma_normal_text("text/x-swift"@);
    assert("text/x-swift"@.subrange(0, 5) =~= "text/"@);
}

proof fn lemma_mime_round_trip_CodeCpp()
    ensures
        MediaType::from_mime_spec(MediaType::CodeCpp.mime_spec()) == MediaType::CodeCpp.mime_round_trip_spec(),
{
    reveal_strlit("application/gzip");
    reveal_strlit("application/json");
    reveal_strlit("application/octet-stream");
    reveal_strlit("application/pdf");
    reveal_strlit("application/toml");
    reveal_strlit("application/x-tar");
    reveal_strlit("application/xml");
    reveal_strlit("application/yaml");
    reveal_strlit("application/zip");
    reveal_strlit("audio/mp4");
    reveal_strlit("audio/mpeg");
    reveal_strlit("audio/wav");
    reveal_strlit("image/gif");
    reveal_strlit("image/jpeg");
    reveal_strlit("image/png");
    reveal_strlit("image/svg+xml");
    reveal_strlit("image/webp");
    reveal_strlit("text/");
    reveal_strlit("text/csv");
    reveal_strlit("text/html");
    reveal_strlit("text/json");
    reveal_strlit("text/markdown");
    reveal_strlit("text/plain");
    reveal_strlit("text/x-c++");
    reveal_strlit("text/xml");
    reveal_strlit("text/yaml");
    reveal_strlit("video/mp4");
    reveal_strlit("video/webm");
    lemma_normal_text("text/x-c++"@);
    assert("text/x-c++"@.subrange(0, 5) =~= "text/"@);
    assert("text/x-c++"@[0] != "audio/mpeg"@[0]);
    assert("text/x-c++"@[0] != "image/jpeg"@[0]);
    assert("text/x-c++"@[0] != "image/webp"@[0]);
    assert("text/x-c++"@[5] != "text/plain"@[5]);
    assert("text/x-c++"@[0] != "video/webm"@[0]);
}

proof fn lemma_mime_round_trip_CodeC()
    ensures
        MediaType::from_mime_spec(MediaType::CodeC.mime_spec()) == MediaType::CodeC.mime_round_trip_spec(),
{
    reveal_strlit("application/gzip");
    reveal_strlit("application/json");
    reveal_strlit("application/octet-stream");
    reveal_strlit("application/pdf");
    reveal_strlit("application/toml");
    reveal_strlit("application/x-tar");
    reveal_strlit("application/xml");
    reveal_strlit("application/yaml");
    reveal_strlit("application/zip");
    reveal_strlit("audio/mp4");
    reveal_strlit("audio/mpeg");
    reveal_strlit("audio/wav");
    reveal_strlit("image/gif");
    reveal_strlit("image/jpeg");
    reveal_strlit("image/png");
    reveal_strlit("image/svg+xml");
    reveal_strlit("image/webp");
    reveal_strlit("text/");
    reveal_strlit("text/csv");
    reveal_strlit("text/html");
    reveal_strlit("text/json");
    reveal_strlit("text/markdown");
    reveal_strlit("text/plain");
    reveal_strlit("text/x-c");
    reveal_strlit("text/xml");
    reveal_strlit("text/yaml");
    reveal_strlit("video/mp4");
    reveal_strlit("video/webm");
    lemma_normal_text("text/x-c"@);
    assert("text/x-c"@.subrange(0, 5) =~= "text/"@);
    assert("text/x-c"@[5] != "text/csv"@[5]);
    assert("text/x-c"@[6] != "text/xml"@[6]);
}

proof fn lemma_mime_round_trip_CodeSql()
    ensures
        MediaType::from_mime_spec(MediaType::CodeSql.mime_spec()) == MediaType::CodeSql.mime_round_trip_spec(),
{
    reveal_strlit("application/gzip");
    reveal_strlit("application/json");
    reveal_strlit("application/octet-stream");
    reveal_strlit("application/pdf");
    reveal_strlit("application/sql");
    reveal_strlit("application/toml");
    reveal_strlit("application/x-tar");
    reveal_strlit("application/xml");
    reveal_strlit("application/yaml");
    reveal_strlit("application/zip");
    reveal_strlit("audio/mp4");
    reveal_strlit("audio/mpeg");
    reveal_strlit("audio/wav");
    reveal_strlit("image/gif");
    reveal_strlit("image/jpeg");
    reveal_strlit("image/png");
    reveal_strlit("image/svg+xml");
    reveal_strlit("image/webp");
    reveal_strlit("text/");
    reveal_strlit("text/csv");
    reveal_strlit("text/html");
    reveal_strlit("text/json");
    reveal_strlit("text/markdown");
    reveal_strlit("text/plain");
    reveal_strlit("text/xml");
    reveal_strlit("text/yaml");
    reveal_strlit("video/mp4");
    reveal_strlit("video/webm");
    lemma_normal_text("application/sql"@);
    assert("application/sql"@.subrange(0, 5)[0] != "text/"@[0]);
    assert("application/sql"@[12] != "application/pdf"@[12]);
    assert("application/sql"@[12] != "application/xml"@[12]);
    assert("application/sql"@[12] != "application/zip"@[12]);
}

proof fn lemma_mime_round_trip_CodeShell()
    ensures
        MediaType::from_mime_spec(MediaType::CodeShell.mime_spec()) == MediaType::CodeShell.mime_round_trip_spec(),
{
    reveal_strlit("application/gzip");
    reveal_strlit("application/json");
    reveal_strlit("application/octet-stream");
    reveal_strlit("application/pdf");
    reveal_strlit("application/toml");
    reveal_strlit("application/x-tar");
    reveal_strlit("application/xml");
    reveal_strlit("application/yaml");
    reveal_strlit("application/zip");
    reveal_strlit("audio/mp4");
    reveal_strlit("audio/mpeg");
    reveal_strlit("audio/wav");
    reveal_strlit("image/gif");
    reveal_strlit("image/jpeg");
    reveal_strlit("image/png");
    reveal_strlit("image/svg+xml");
    reveal_strlit("image/webp");
    reveal_strlit("text/");
    reveal_strlit("text/csv");
    reveal_strlit("text/html");
    reveal_strlit("text/json");
    reveal_strlit("text/markdown");
    reveal_strlit("text/plain");
    reveal_strlit("text/x-shellscript");
    reveal_strlit("text/xml");
    reveal_strlit("text/yaml");
    reveal_strlit("video/mp4");
    reveal_strlit("video/webm");
    lemma_normal_text("text/x-shellscript"@);
    assert("text/x-shellscript"@.subrange(0, 5) =~= "text/"@);
}

proof fn lemma_mime_round_trip_CodeDockerfile()
    ensures
        MediaType::from_mime_spec(MediaType::CodeDockerfile.mime_spec()) == MediaType::CodeDockerfile.mime_round_trip_spec(),
{
    reveal_strlit("application/gzip");
    reveal_strlit("application/json");
    reveal_strlit("application/octet-stream");
    reveal_strlit("application/pdf");
    reveal_strlit("application/toml");
    reveal_strlit("application/x-tar");
    reveal_strlit("application/xml");
    reveal_strlit("application/yaml");
    reveal_strlit("application/zip");
    reveal_strlit("audio/mp4");
    reveal_strlit("audio/mpeg");
    reveal_strlit("audio/wav");
    reveal_strlit("image/gif");
    reveal_strlit("image/jpeg");
    reveal_strlit("image/png");
    reveal_strlit("image/svg+xml");
    reveal_strlit("image/webp");
    reveal_strlit("text/");
    reveal_strlit("text/csv");
    reveal_strlit("text/html");
    reveal_strlit("text/json");
    reveal_strlit("text/markdown");
    reveal_strlit("text/plain");
    reveal_strlit("text/x-dockerfile-config");
    reveal_strlit("text/xml");
    reveal_strlit("text/yaml");
    reveal_strlit("video/mp4");
    reveal_strlit("video/webm");
    lemma_normal_text("text/x-dockerfile-config"@);
    assert("text/x-dockerfile-config"@.subrange(0, 5) =~= "text/"@);
    assert("text/x-dockerfile-config"@[0] != "application/octet-stream"@[0]);
}

proof fn lemma_mime_round_trip_Pdf()
    ensures
        MediaType::from_mime_spec(MediaType::Pdf.mime_spec()) == MediaType::Pdf.mime_round_trip_spec(),
{
    reveal_strlit("application/gzip");
    reveal_strlit("application/json");
    reveal_strlit("application/octet-stream");
    reveal_strlit("application/pdf");
    reveal_strlit("application/toml");
    reveal_strlit("application/x-tar");
    reveal_strlit("application/xml");
    reveal_strlit("application/yaml");
    reveal_strlit("application/zip");
    reveal_strlit("audio/mp4");
    reveal_strlit("audio/mpeg");
    reveal_strlit("audio/wav");
    reveal_strlit("image/gif");
    reveal_strlit("image/jpeg");
    reveal_strlit("image/png");
    reveal_strlit("image/svg+xml");
    reveal_strlit("image/webp");
    reveal_strlit("text/");
    reveal_strlit("text/csv");
    reveal_strlit("text/html");
    reveal_strlit("text/json");
    reveal_strlit("text/markdown");
    reveal_strlit("text/plain");
    reveal_strlit("text/xml");
    reveal_strlit("text/yaml");
    reveal_strlit("video/mp4");
    reveal_strlit("video/webm");
    lemma_normal_text("application/pdf"@);
    assert("application/pdf"@.subrange(0, 5)[0] != "text/"@[0]);
    assert("application/pdf"@[12] != "application/xml"@[12]);
    assert("application/pdf"@[12] != "application/zip"@[12]);
}

proof fn lemma_mime_round_trip_Docx()
    ensures
        MediaType::from_mime_spec(MediaType::Docx.mime_spec()) == MediaType::Docx.mime_round_trip_spec(),
{
    reveal_strlit("application/gzip");
    reveal_strlit("application/json");
    reveal_strlit("application/octet-stream");
    reveal_strlit("application/pdf");
    reveal_strlit("application/toml");
    reveal_strlit("application/vnd.openxmlformats-officedocument.wordprocessingml.document");
    reveal_strlit("application/x-tar");
    reveal_strlit("application/xml");
    reveal_strlit("application/yaml");
    reveal_strlit("application/zip");
    reveal_strlit("audio/mp4");
    reveal_strlit("audio/mpeg");
    reveal_strlit("audio/wav");
    reveal_strlit("image/gif");
    reveal_strlit("image/jpeg");
    reveal_strlit("image/png");
    reveal_strlit("image/svg+xml");
    reveal_strlit("image/webp");
    reveal_strlit("text/");
    reveal_strlit("text/csv");
    reveal_strlit("text/html");
    reveal_strlit("text/json");
    reveal_strlit("text/markdown");
    reveal_strlit("text/plain");
    reveal_strlit("text/xml");
    reveal_strlit("text/yaml");
    reveal_strlit("video/mp4");
    reveal_strlit("video/webm");
    lemma_normal_text("application/vnd.openxmlformats-officedocument.wordprocessingml.document"@);
    assert("application/vnd.openxmlformats-officedocument.wordprocessingml.document"@.subrange(0, 5)[0] != "text/"@[0]);
}

proof fn lemma_mime_round_trip_Pptx()
    ensures
        MediaType::from_mime_spec(MediaType::Pptx.mime_spec()) == MediaType::Pptx.mime_round_trip_spec(),
{
    reveal_strlit("application/gzip");
    reveal_strlit("application/json");
    reveal_strlit("application/octet-stream");
    reveal_strlit("application/pdf");
    reveal_strlit("application/toml");
    reveal_strlit("application/vnd.openxmlformats-officedocument.presentationml.presentation");
    reveal_strlit("application/x-tar");
    reveal_strlit("application/xml");
    reveal_strlit("application/yaml");
    reveal_strlit("application/zip");
    reveal_strlit("audio/mp4");
    reveal_strlit("audio/mpeg");
    reveal_strlit("audio/wav");
    reveal_strlit("image/gif");
    reveal_strlit("image/jpeg");
    reveal_strlit("image/png");
    reveal_strlit("image/svg+xml");
    reveal_strlit("image/webp");
    reveal_strlit("text/");
    reveal_strlit("text/csv");
    reveal_strlit("text/html");
    reveal_strlit("text/json");
    reveal_strlit("text/markdown");
    reveal_strlit("text/plain");
    reveal_strlit("text/xml");
    reveal_strlit("text/yaml");
    reveal_strlit("video/mp4");
    reveal_strlit("video/webm");
    lemma_normal_text("application/vnd.openxmlformats-officedocument.presentationml.presentation"@);
    assert("application/vnd.openxmlformats-officedocument.presentationml.presentation"@.subrange(0, 5)[0] != "text/"@[0]);
}

proof fn lemma_mime_round_trip_Xlsx()
    ensures
        MediaType::from_mime_spec(MediaType::Xlsx.mime_spec()) == MediaType::Xlsx.mime_round_trip_spec(),
{
    reveal_strlit("application/gzip");
    reveal_strlit("application/json");
    reveal_strlit("application/octet-stream");
    reveal_strlit("application/pdf");
    reveal_strlit("application/toml");
    reveal_strlit("application/vnd.openxmlformats-officedocument.spreadsheetml.sheet");
    reveal_strlit("application/x-tar");
    reveal_strlit("application/xml");
    reveal_strlit("application/yaml");
    reveal_strlit("application/zip");
    reveal_strlit("audio/mp4");
    reveal_strlit("audio/mpeg");
    reveal_strlit("audio/wav");
    reveal_strlit("image/gif");
    reveal_strlit("image/jpeg");
    reveal_strlit("image/png");
    reveal_strlit("image/svg+xml");
    reveal_strlit("image/webp");
    reveal_strlit("text/");
    reveal_strlit("text/csv");
    reveal_strlit("text/html");
    reveal_strlit("text/json");
    reveal_strlit("text/markdown");
    reveal_strlit("text/plain");
    reveal_strlit("text/xml");
    reveal_strlit("text/yaml");
    reveal_strlit("video/mp4");
    reveal_strlit("video/webm");
    lemma_normal_text("application/vnd.openxmlformats-officedocument.spreadsheetml.sheet"@);
    assert("application/vnd.openxmlformats-officedocument.spreadsheetml.sheet"@.subrange(0, 5)[0] != "text/"@[0]);
}

proof fn lemma_mime_round_trip_Parquet()
    ensures
        MediaType::from_mime_spec(MediaType::Parquet.mime_spec()) == MediaType::Parquet.mime_round_trip_spec(),
{
    reveal_strlit("application/gzip");
    reveal_strlit("application/json");
    reveal_strlit("application/octet-stream");
    reveal_strlit("application/pdf");
    reveal_strlit("application/toml");
    reveal_strlit("application/x-parquet");
    reveal_strlit("application/x-tar");
    reveal_strlit("application/xml");
    reveal_strlit("application/yaml");
    reveal_strlit("application/zip");
    reveal_strlit("audio/mp4");
    reveal_strlit("audio/mpeg");
    reveal_strlit("audio/wav");
    reveal_strlit("image/gif");
    reveal_strlit("image/jpeg");
    reveal_strlit("image/png");
    reveal_strlit("image/svg+xml");
    reveal_strlit("image/webp");
    reveal_strlit("text/");
    reveal_strlit("text/csv");
    reveal_strlit("text/html");
    reveal_strlit("text/json");
    reveal_strlit("text/markdown");
    reveal_strlit("text/plain");
    reveal_strlit("text/xml");
    reveal_strlit("text/yaml");
    reveal_strlit("video/mp4");
    reveal_strlit("video/webm");
    lemma_normal_text("application/x-parquet"@);
    assert("application/x-parquet"@.subrange(0, 5)[0] != "text/"@[0]);
}

proof fn lemma_mime_round_trip_Avro()
    ensures
        MediaType::from_mime_spec(MediaType::Avro.mime_spec()) == MediaType::Avro.mime_round_trip_spec(),
{
    reveal_strlit("application/avro");
    reveal_strlit("application/gzip");
    reveal_strlit("application/json");
    reveal_strlit("application/octet-stream");
    reveal_strlit("application/pdf");
    reveal_strlit("application/toml");
    reveal_strlit("application/x-tar");
    reveal_strlit("application/xml");
    reveal_strlit("application/yaml");
    reveal_strlit("application/zip");
    reveal_strlit("audio/mp4");
    reveal_strlit("audio/mpeg");
    reveal_strlit("audio/wav");
    reveal_strlit("image/gif");
    reveal_strlit("image/jpeg");
    reveal_strlit("image/png");
    reveal_strlit("image/svg+xml");
    reveal_strlit("image/webp");
    reveal_strlit("text/");
    reveal_strlit("text/csv");
    reveal_strlit("text/html");
    reveal_strlit("text/json");
    reveal_strlit("text/markdown");
    reveal_strlit("text/plain");
    reveal_strlit("text/xml");
    reveal_strlit("text/yaml");
    reveal_strlit("video/mp4");
    reveal_strlit("video/webm");
    lemma_normal_text("application/avro"@);
    assert("application/avro"@.subrange(0, 5)[0] != "text/"@[0]);
    assert("application/avro"@[12] != "application/gzip"@[12]);
    assert("application/avro"@[12] != "application/json"@[12]);
    assert("application/avro"@[12] != "application/toml"@[12]);
    assert("application/avro"@[12] != "application/yaml"@[12]);
}

proof fn lemma_mime_round_trip_ImagePng()
    ensures
        MediaType::from_mime_spec(MediaType::ImagePng.mime_spec()) == MediaType::ImagePng.mime_round_trip_spec(),
{
    reveal_strlit("application/gzip");
    reveal_strlit("application/json");
    reveal_strlit("application/octet-stream");
    reveal_strlit("application/pdf");
    reveal_strlit("application/toml");
    reveal_strlit("application/x-tar");
    reveal_strlit("application/xml");
    reveal_strlit("application/yaml");
    reveal_strlit("application/zip");
    reveal_strlit("audio/mp4");
    reveal_strlit("audio/mpeg");
    reveal_strlit("audio/wav");
    reveal_strlit("image/gif");
    reveal_strlit("image/jpeg");
    reveal_strlit("image/png");
    reveal_strlit("image/svg+xml");
    reveal_strlit("image/webp");
    reveal_strlit("text/");
    reveal_strlit("text/csv");
    reveal_strlit("text/html");
    reveal_strlit("text/json");
    reveal_strlit("text/markdown");
    reveal_strlit("text/plain");
    reveal_strlit("text/xml");
    reveal_strlit("text/yaml");
    reveal_strlit("video/mp4");
    reveal_strlit("video/webm");
    lemma_normal_text("image/png"@);
    assert("image/png"@.subrange(0, 5)[0] != "text/"@[0]);
    assert("image/png"@[0] != "audio/mp4"@[0]);
    assert("image/png"@[0] != "audio/wav"@[0]);
    assert("image/png"@[6] != "image/gif"@[6]);
    assert("image/png"@[0] != "text/html"@[0]);
    assert("image/png"@[0] != "text/json"@[0]);
    assert("image/png"@[0] != "text/yaml"@[0]);
    assert("image/png"@[0] != "video/mp4"@[0]);
}

proof fn lemma_mime_round_trip_ImageJpeg()
    ensures
        MediaType::from_mime_spec(MediaType::ImageJpeg.mime_spec()) == MediaType::ImageJpeg.mime_round_trip_spec(),
{
    reveal_strlit("application/gzip");
    reveal_strlit("application/json");
    reveal_strlit("application/octet-stream");
    reveal_strlit("application/pdf");
    reveal_strlit("application/toml");
    reveal_strlit("application/x-tar");
    reveal_strlit("application/xml");
    reveal_strlit("application/yaml");
    reveal_strlit("application/zip");
    reveal_strlit("audio/mp4");
    reveal_strlit("audio/mpeg");
    reveal_strlit("audio/wav");
    reveal_strlit("image/gif");
    reveal_strlit("image/jpeg");
    reveal_strlit("image/png");
    reveal_strlit("image/svg+xml");
    reveal_strlit("image/webp");
    reveal_strlit("text/");
    reveal_strlit("text/csv");
    reveal_strlit("text/html");
    reveal_strlit("text/json");
    reveal_strlit("text/markdown");
    reveal_strlit("text/plain");
    reveal_strlit("text/xml");
    reveal_strlit("text/yaml");
    reveal_strlit("video/mp4");
    reveal_strlit("video/webm");
    lemma_normal_text("image/jpeg"@);
    assert("image/jpeg"@.subrange(0, 5)[0] != "text/"@[0]);
    assert("image/jpeg"@[0] != "audio/mpeg"@[0]);
    assert("image/jpeg"@[6] != "image/webp"@[6]);
    assert("image/jpeg"@[0] != "text/plain"@[0]);
    assert("image/jpeg"@[0] != "video/webm"@[0]);
}

proof fn lemma_mime_round_trip_ImageWebp()
    ensures
        MediaType::from_mime_spec(MediaType::ImageWebp.mime_spec()) == MediaType::ImageWebp.mime_round_trip_spec(),
{
    reveal_strlit("application/gzip");
    reveal_strlit("application/json");
    reveal_strlit("application/octet-stream");
    reveal_strlit("application/pdf");
    reveal_strlit("application/toml");
    reveal_strlit("application/x-tar");
    reveal_strlit("application/xml");
    reveal_strlit("application/yaml");
    reveal_strlit("application/zip");
    reveal_strlit("audio/mp4");
    reveal_strlit("audio/mpeg");
    reveal_strlit("audio/wav");
    reveal_strlit("image/gif");
    reveal_strlit("image/jpeg");
    reveal_strlit("image/png");
    reveal_strlit("image/svg+xml");
    reveal_strlit("image/webp");
    reveal_strlit("text/");
    reveal_strlit("text/csv");
    reveal_strlit("text/html");
    reveal_strlit("text/json");
    reveal_strlit("text/markdown");
    reveal_strlit("text/plain");
    reveal_strlit("text/xml");
    reveal_strlit("text/yaml");
    reveal_strlit("video/mp4");
    reveal_strlit("video/webm");
    lemma_normal_text("image/webp"@);
    assert("image/webp"@.subrange(0, 5)[0] != "text/"@[0]);
    assert("image/webp"@[0] != "audio/mpeg"@[0]);
    assert("image/webp"@[6] != "image/jpeg"@[6]);
    assert("image/webp"@[0] != "text/plain"@[0]);
    assert("image/webp"@[0] != "video/webm"@[0]);
}

proof fn lemma_mime_round_trip_ImageGif()
    ensures
        MediaType::from_mime_spec(MediaType::ImageGif.mime_spec()) == MediaType::ImageGif.mime_round_trip_spec(),
{
    reveal_strlit("application/gzip");
    reveal_strlit("application/json");
    reveal_strlit("application/octet-stream");
    reveal_strlit("application/pdf");
    reveal_strlit("application/toml");
    reveal_strlit("application/x-tar");
    reveal_strlit("application/xml");
    reveal_strlit("application/yaml");
    reveal_strlit("application/zip");
    reveal_strlit("audio/mp4");
    reveal_strlit("audio/mpeg");
    reveal_strlit("audio/wav");
    reveal_strlit("image/gif");
    reveal_strlit("image/jpeg");
    reveal_strlit("image/png");
    reveal_strlit("image/svg+xml");
    reveal_strlit("image/webp");
    reveal_strlit("text/");
    reveal_strlit("text/csv");
    reveal_strlit("text/html");
    reveal_strlit("text/json");
    reveal_strlit("text/markdown");
    reveal_strlit("text/plain");
    reveal_strlit("text/xml");
    reveal_strlit("text/yaml");
    reveal_strlit("video/mp4");
    reveal_strlit("video/webm");
    lemma_normal_text("image/gif"@);
    assert("image/gif"@.subrange(0, 5)[0] != "text/"@[0]);
    assert("image/gif"@[0] != "audio/mp4"@[0]);
    assert("image/gif"@[0] != "audio/wav"@[0]);
    assert("image/gif"@[6] != "image/png"@[6]);
    assert("image/gif"@[0] != "text/html"@[0]);
    assert("image/gif"@[0] != "text/json"@[0]);
    assert("image/gif"@[0] != "text/yaml"@[0]);
    assert("image/gif"@[0] != "video/mp4"@[0]);
}

proof fn lemma_mime_round_trip_ImageSvg()
    ensures
        MediaType::from_mime_spec(MediaType::ImageSvg.mime_spec()) == MediaType::ImageSvg.mime_round_trip_spec(),
{
    reveal_strlit("application/gzip");
    reveal_strlit("application/json");
    reveal_strlit("application/octet-stream");
    reveal_strlit("application/pdf");
    reveal_strlit("application/toml");
    reveal_strlit("application/x-tar");
    reveal_strlit("application/xml");
    reveal_strlit("application/yaml");
    reveal_strlit("application/zip");
    reveal_strlit("audio/mp4");
    reveal_strlit("audio/mpeg");
    reveal_strlit("audio/wav");
    reveal_strlit("image/gif");
    reveal_strlit("image/jpeg");
    reveal_strlit("image/png");
    reveal_strlit("image/svg+xml");
    reveal_strlit("image/webp");
    reveal_strlit("text/");
    reveal_strlit("text/csv");
    reveal_strlit("text/html");
    reveal_strlit("text/json");
    reveal_strlit("text/markdown");
    reveal_strlit("text/plain");
    reveal_strlit("text/xml");
    reveal_strlit("text/yaml");
    reveal_strlit("video/mp4");
    reveal_strlit("video/webm");
    lemma_normal_text("image/svg+xml"@);
    assert("image/svg+xml"@.subrange(0, 5)[0] != "text/"@[0]);
    assert("image/svg+xml"@[0] != "text/markdown"@[0]);
}

proof fn lemma_mime_round_trip_AudioMp3()
    ensures
        MediaType::from_mime_spec(MediaType::AudioMp3.mime_spec()) == MediaType::AudioMp3.mime_round_trip_spec(),
{
    reveal_strlit("application/gzip");
    reveal_strlit("application/json");
    reveal_strlit("application/octet-stream");
    reveal_strlit("application/pdf");
    reveal_strlit("application/toml");
    reveal_strlit("application/x-tar");
    reveal_strlit("application/xml");
    reveal_strlit("application/yaml");
    reveal_strlit("application/zip");
    reveal_strlit("audio/mp4");
    reveal_strlit("audio/mpeg");
    reveal_strlit("audio/wav");
    reveal_strlit("image/gif");
    reveal_strlit("image/jpeg");
    reveal_strlit("image/png");
    reveal_strlit("image/svg+xml");
    reveal_strlit("image/webp");
    reveal_strlit("text/");
    reveal_strlit("text/csv");
    reveal_strlit("text/html");
    reveal_strlit("text/json");
    reveal_strlit("text/markdown");
    reveal_strlit("text/plain");
    reveal_strlit("text/xml");
    reveal_strlit("text/yaml");
    reveal_strlit("video/mp4");
    reveal_strlit("video/webm");
    lemma_normal_text("audio/mpeg"@);
    assert("audio/mpeg"@.subrange(0, 5)[0] != "text/"@[0]);
    assert("audio/mpeg"@[0] != "image/jpeg"@[0]);
    assert("audio/mpeg"@[0] != "image/webp"@[0]);
    assert("audio/mpeg"@[0] != "text/plain"@[0]);
    assert("audio/mpeg"@[0] != "video/webm"@[0]);
}

proof fn lemma_mime_round_trip_AudioWav()
    ensures
        MediaType::from_mime_spec(MediaType::AudioWav.mime_spec()) == MediaType::AudioWav.mime_round_trip_spec(),
{
    reveal_strlit("application/gzip");
    reveal_strlit("application/json");
    reveal_strlit("application/octet-stream");
    reveal_strlit("application/pdf");
    reveal_strlit("application/toml");
    reveal_strlit("application/x-tar");
    reveal_strlit("application/xml");
    reveal_strlit("application/yaml");
    reveal_strlit("application/zip");
    reveal_strlit("audio/mp4");
    reveal_strlit("audio/mpeg");
    reveal_strlit("audio/wav");
    reveal_strlit("image/gif");
    reveal_strlit("image/jpeg");
    reveal_strlit("image/png");
    reveal_strlit("image/svg+xml");
    reveal_strlit("image/webp");
    reveal_strlit("text/");
    reveal_strlit("text/csv");
    reveal_strlit("text/html");
    reveal_strlit("text/json");
    reveal_strlit("text/markdown");
    reveal_strlit("text/plain");
    reveal_strlit("text/xml");
    reveal_strlit("text/yaml");
    reveal_strlit("video/mp4");
    reveal_strlit("video/webm");
    lemma_normal_text("audio/wav"@);
    assert("audio/wav"@.subrange(0, 5)[0] != "text/"@[0]);
    assert("audio/wav"@[6] != "audio/mp4"@[6]);
    assert("audio/wav"@[0] != "image/gif"@[0]);
    assert("audio/wav"@[0] != "image/png"@[0]);
    assert("audio/wav"@[0] != "text/html"@[0]);
    assert("audio/wav"@[0] != "text/json"@[0]);
    assert("audio/wav"@[0] != "text/yaml"@[0]);
    assert("audio/wav"@[0] != "video/mp4"@[0]);
}

proof fn lemma_mime_round_trip_AudioM4a()
    ensures
        MediaType::from_mime_spec(MediaType::AudioM4a.mime_spec()) == MediaType::AudioM4a.mime_round_trip_spec(),
{
    reveal_strlit("application/gzip");
    reveal_strlit("application/json");
    reveal_strlit("application/octet-stream");
    reveal_strlit("application/pdf");
    reveal_strlit("application/toml");
    reveal_strlit("application/x-tar");
    reveal_strlit("application/xml");
    reveal_strlit("application/yaml");
    reveal_strlit("application/zip");
    reveal_strlit("audio/mp4");
    reveal_strlit("audio/mpeg");
    reveal_strlit("audio/wav");
    reveal_strlit("image/gif");
    reveal_strlit("image/jpeg");
    reveal_strlit("image/png");
    reveal_strlit("image/svg+xml");
    reveal_strlit("image/webp");
    reveal_strlit("text/");
    reveal_strlit("text/csv");
    reveal_strlit("text/html");
    reveal_strlit("text/json");
    reveal_strlit("text/markdown");
    reveal_strlit("text/plain");
    reveal_strlit("text/xml");
    reveal_strlit("text/yaml");
    reveal_strlit("video/mp4");
    reveal_strlit("video/webm");
    lemma_normal_text("audio/mp4"@);
    assert("audio/mp4"@.subrange(0, 5)[0] != "text/"@[0]);
    assert("audio/mp4"@[6] != "audio/wav"@[6]);
    assert("audio/mp4"@[0] != "image/gif"@[0]);
    assert("audio/mp4"@[0] != "image/png"@[0]);
    assert("audio/mp4"@[0] != "text/html"@[0]);
    assert("audio/mp4"@[0] != "text/json"@[0]);
    assert("audio/mp4"@[0] != "text/yaml"@[0]);
    assert("audio/mp4"@[0] != "video/mp4"@[0]);
}

proof fn lemma_mime_round_trip_VideoMp4()
    ensures
        MediaType::from_mime_spec(MediaType::VideoMp4.mime_spec()) == MediaType::VideoMp4.mime_round_trip_spec(),
{
    reveal_strlit("application/gzip");
    reveal_strlit("application/json");
    reveal_strlit("application/octet-stream");
    reveal_strlit("application/pdf");
    reveal_strlit("application/toml");
    reveal_strlit("application/x-tar");
    reveal_strlit("application/xml");
    reveal_strlit("application/yaml");
    reveal_strlit("application/zip");
    reveal_strlit("audio/mp4");
    reveal_strlit("audio/mpeg");
    reveal_strlit("audio/wav");
    reveal_strlit("image/gif");
    reveal_strlit("image/jpeg");
    reveal_strlit("image/png");
    reveal_strlit("image/svg+xml");
    reveal_strlit("image/webp");
    reveal_strlit("text/");
    reveal_strlit("text/csv");
    reveal_strlit("text/html");
    reveal_strlit("text/json");
    reveal_strlit("text/markdown");
    reveal_strlit("text/plain");
    reveal_strlit("text/xml");
    reveal_strlit("text/yaml");
    reveal_strlit("video/mp4");
    reveal_strlit("video/webm");
    lemma_normal_text("video/mp4"@);
    assert("video/mp4"@.subrange(0, 5)[0] != "text/"@[0]);
    assert("video/mp4"@[0] != "audio/mp4"@[0]);
    assert("video/mp4"@[0] != "audio/wav"@[0]);
    assert("video/mp4"@[0] != "image/gif"@[0]);
    assert("video/mp4"@[0] != "image/png"@[0]);
    assert("video/mp4"@[0] != "text/html"@[0]);
    assert("video/mp4"@[0] != "text/json"@[0]);
    assert("video/mp4"@[0] != "text/yaml"@[0]);
}

proof fn lemma_mime_round_trip_VideoWebm()
    ensures
        MediaType::from_mime_spec(MediaType::VideoWebm.mime_spec()) == MediaType::VideoWebm.mime_round_trip_spec(),
{
    reveal_strlit("application/gzip");
    reveal_strlit("application/json");
    reveal_strlit("application/octet-stream");
    reveal_strlit("application/pdf");
    reveal_strlit("application/toml");
    reveal_strlit("application/x-tar");
    reveal_strlit("application/xml");
    reveal_strlit("application/yaml");
    reveal_strlit("application/zip");
    reveal_strlit("audio/mp4");
    reveal_strlit("audio/mpeg");
    reveal_strlit("audio/wav");
    reveal_strlit("image/gif");
    reveal_strlit("image/jpeg");
    reveal_strlit("image/png");
    reveal_strlit("image/svg+xml");
    reveal_strlit("image/webp");
    reveal_strlit("text/");
    reveal_strlit("text/csv");
    reveal_strlit("text/html");
    reveal_strlit("text/json");
    reveal_strlit("text/markdown");
    reveal_strlit("text/plain");
    reveal_strlit("text/xml");
    reveal_strlit("text/yaml");
    reveal_strlit("video/mp4");
    reveal_strlit("video/webm");
    lemma_normal_text("video/webm"@);
    assert("video/webm"@.subrange(0, 5)[0] != "text/"@[0]);
    assert("video/webm"@[0] != "audio/mpeg"@[0]);
    assert("video/webm"@[0] != "image/jpeg"@[0]);
    assert("video/webm"@[0] != "image/webp"@[0]);
    assert("video/webm"@[0] != "text/plain"@[0]);
}

proof fn lemma_mime_round_trip_ArchiveZip()
    ensures
        MediaType::from_mime_spec(MediaType::ArchiveZip.mime_spec()) == MediaType::ArchiveZip.mime_round_trip_spec(),
{
    reveal_strlit("application/gzip");
    reveal_strlit("application/json");
    reveal_strlit("application/octet-stream");
    reveal_strlit("application/pdf");
    reveal_strlit("application/toml");
    reveal_strlit("application/x-tar");
    reveal_strlit("application/xml");
    reveal_strlit("application/yaml");
    reveal_strlit("application/zip");
    reveal_strlit("audio/mp4");
    reveal_strlit("audio/mpeg");
    reveal_strlit("audio/wav");
    reveal_strlit("image/gif");
    reveal_strlit("image/jpeg");
    reveal_strlit("image/png");
    reveal_strlit("image/svg+xml");
    reveal_strlit("image/webp");
    reveal_strlit("text/");
    reveal_strlit("text/csv");
    reveal_strlit("text/html");
    reveal_strlit("text/json");
    reveal_strlit("text/markdown");
    reveal_strlit("text/plain");
    reveal_strlit("text/xml");
    reveal_strlit("text/yaml");
    reveal_strlit("video/mp4");
    reveal_strlit("video/webm");
    lemma_normal_text("application/zip"@);
    assert("application/zip"@.subrange(0, 5)[0] != "text/"@[0]);
    assert("application/zip"@[12] != "application/pdf"@[12]);
    assert("application/zip"@[12] != "application/xml"@[12]);
}

proof fn lemma_mime_round_trip_ArchiveTar()
    ensures
        MediaType::from_mime_spec(MediaType::ArchiveTar.mime_spec()) == MediaType::ArchiveTar.mime_round_trip_spec(),
{
    reveal_strlit("application/gzip");
    reveal_strlit("application/json");
    reveal_strlit("application/octet-stream");
    reveal_strlit("application/pdf");
    reveal_strlit("application/toml");
    reveal_strlit("application/x-tar");
    reveal_strlit("application/xml");
    reveal_strlit("application/yaml");
    reveal_strlit("application/zip");
    reveal_strlit("audio/mp4");
    reveal_strlit("audio/mpeg");
    reveal_strlit("audio/wav");
    reveal_strlit("image/gif");
    reveal_strlit("image/jpeg");
    reveal_strlit("image/png");
    reveal_strlit("image/svg+xml");
    reveal_strlit("image/webp");
    reveal_strlit("text/");
    reveal_strlit("text/csv");
    reveal_strlit("text/html");
    reveal_strlit("text/json");
    reveal_strlit("text/markdown");
    reveal_strlit("text/plain");
    reveal_strlit("text/xml");
    reveal_strlit("text/yaml");
    reveal_strlit("video/mp4");
    reveal_strlit("video/webm");
    lemma_normal_text("application/x-tar"@);
    assert("application/x-tar"@.subrange(0, 5)[0] != "text/"@[0]);
}

proof fn lemma_mime_round_trip_ArchiveGzip()
    ensures
        MediaType::from_mime_spec(MediaType::ArchiveGzip.mime_spec()) == MediaType::ArchiveGzip.mime_round_trip_spec(),
{
    reveal_strlit("application/gzip");
    reveal_strlit("application/json");
    reveal_strlit("application/octet-stream");
    reveal_strlit("application/pdf");
    reveal_strlit("application/toml");
    reveal_strlit("application/x-tar");
    reveal_strlit("application/xml");
    reveal_strlit("application/yaml");
    reveal_strlit("application/zip");
    reveal_strlit("audio/mp4");
    reveal_strlit("audio/mpeg");
    reveal_strlit("audio/wav");
    reveal_strlit("image/gif");
    reveal_strlit("image/jpeg");
    reveal_strlit("image/png");
    reveal_strlit("image/svg+xml");
    reveal_strlit("image/webp");
    reveal_strlit("text/");
    reveal_strlit("text/csv");
    reveal_strlit("text/html");
    reveal_strlit("text/json");
    reveal_strlit("text/markdown");
    reveal_strlit("text/plain");
    reveal_strlit("text/xml");
    reveal_strlit("text/yaml");
    reveal_strlit("video/mp4");
    reveal_strlit("video/webm");
    lemma_normal_text("application/gzip"@);
    assert("application/gzip"@.subrange(0, 5)[0] != "text/"@[0]);
    assert("application/gzip"@[12] != "application/json"@[12]);
    assert("application/gzip"@[12] != "application/toml"@[12]);
    assert("application/gzip"@[12] != "application/yaml"@[12]);
}

proof fn lemma_mime_round_trip_Text()
    ensures
        MediaType::from_mime_spec(MediaType::Text.mime_spec()) == MediaType::Text.mime_round_trip_spec(),
{
    reveal_strlit("application/gzip");
    reveal_strlit("application/json");
    reveal_strlit("application/octet-stream");
    reveal_strlit("application/pdf");
    reveal_strlit("application/toml");
    reveal_strlit("application/x-tar");
    reveal_strlit("application/xml");
    reveal_strlit("application/yaml");
    reveal_strlit("application/zip");
    reveal_strlit("audio/mp4");
    reveal_strlit("audio/mpeg");
    reveal_strlit("audio/wav");
    reveal_strlit("image/gif");
    reveal_strlit("image/jpeg");
    reveal_strlit("image/png");
    reveal_strlit("image/svg+xml");
    reveal_strlit("image/webp");
    reveal_strlit("text/");
    reveal_strlit("text/csv");
    reveal_strlit("text/html");
    reveal_strlit("text/json");
    reveal_strlit("text/markdown");
    reveal_strlit("text/plain");
    reveal_strlit("text/xml");
    reveal_strlit("text/yaml");
    reveal_strlit("video/mp4");
    reveal_strlit("video/webm");
    lemma_normal_text("text/plain"@);
    assert("text/plain"@.subrange(0, 5) =~= "text/"@);
    assert("text/plain"@[0] != "audio/mpeg"@[0]);
    assert("text/plain"@[0] != "image/jpeg"@[0]);
    assert("text/plain"@[0] != "image/webp"@[0]);
    assert("text/plain"@[0] != "video/webm"@[0]);
}

proof fn lemma_mime_round_trip_Binary()
    ensures
        MediaType::from_mime_spec(MediaType::Binary.mime_spec()) == MediaType::Binary.mime_round_trip_spec(),
{
    reveal_strlit("application/gzip");
    reveal_strlit("application/json");
    reveal_strlit("application/octet-stream");
    reveal_strlit("application/pdf");
    reveal_strlit("application/toml");
    reveal_strlit("application/x-tar");
    reveal_strlit("application/xml");
    reveal_strlit("application/yaml");
    reveal_strlit("application/zip");
    reveal_strlit("audio/mp4");
    reveal_strlit("audio/mpeg");
    reveal_strlit("audio/wav");
    reveal_strlit("image/gif");
    reveal_strlit("image/jpeg");
    reveal_strlit("image/png");
    reveal_strlit("image/svg+xml");
    reveal_strlit("image/webp");
    reveal_strlit("text/");
    reveal_strlit("text/csv");
    reveal_strlit("text/html");
    reveal_strlit("text/json");
    reveal_strlit("text/markdown");
    reveal_strlit("text/plain");
    reveal_strlit("text/xml");
    reveal_strlit("text/yaml");
    reveal_strlit("video/mp4");
    reveal_strlit("video/webm");
    lemma_normal_text("application/octet-stream"@);
    assert("application/octet-stream"@.subrange(0, 5)[0] != "text/"@[0]);
}

proof fn lemma_mime_round_trip_Unknown()
    ensures
        MediaType::from_mime_spec(MediaType::Unknown.mime_spec()) == MediaType::Unknown.mime_round_trip_spec(),
{
    reveal_strlit("application/gzip");
    reveal_strlit("application/json");
    reveal_strlit("application/octet-stream");
    reveal_strlit("application/pdf");
    reveal_strlit("application/toml");
    reveal_strlit("application/x-tar");
    reveal_strlit("application/xml");
    reveal_strlit("application/yaml");
    reveal_strlit("application/zip");
    reveal_strlit("audio/mp4");
    reveal_strlit("audio/mpeg");
    reveal_strlit("audio/wav");
    reveal_strlit("image/gif");
    reveal_strlit("image/jpeg");
    reveal_strlit("image/png");
    reveal_strlit("image/svg+xml");
    reveal_strlit("image/webp");
    reveal_strlit("text/");
    reveal_strlit("text/csv");
    reveal_strlit("text/html");
    reveal_strlit("text/json");
    reveal_strlit("text/markdown");
    reveal_strlit("text/plain");
    reveal_strlit("text/xml");
    reveal_strlit("text/yaml");
    reveal_strlit("video/mp4");
    reveal_strlit("video/webm");
    lemma_normal_text("application/octet-stream"@);
    assert("application/octet-stream"@.subrange(0, 5)[0] != "text/"@[0]);
}

/// Reading back the MIME name of a media type gives the type itself, except
/// that `Text` reads back as `TextPlain` and `Unknown` as `Binary` (they share
/// those names), SQL and the office, Parquet and Avro types as `Unknown`, and
/// the other source-code types as `Text`.
pub proof fn law_mime_round_trip(m: MediaType)
    ensures
        MediaType::from_mime_spec(m.mime_spec()) == m.mime_round_trip_spec(),
{
    match m {
        MediaType::TextPlain => lemma_mime_round_trip_TextPlain(),
        MediaType::TextMarkdown => lemma_mime_round_trip_TextMarkdown(),
        MediaType::TextHtml => lemma_mime_round_trip_TextHtml(),
        MediaType::TextXml => lemma_mime_round_trip_TextXml(),
        MediaType::TextCsv => lemma_mime_round_trip_TextCsv(),
        MediaType::TextToml => lemma_mime_round_trip_TextToml(),
        MediaType::TextYaml => lemma_mime_round_trip_TextYaml(),
        MediaType::TextJson => lemma_mime_round_trip_TextJson(),
        MediaType::CodeRust => lemma_mime_round_trip_CodeRust(),
        MediaType::CodeCSharp => lemma_mime_round_trip_CodeCSharp(),
        MediaType::CodeTypeScript => lemma_mime_round_trip_CodeTypeScript(),
        MediaType::CodeJavaScript => lemma_mime_round_trip_CodeJavaScript(),
        MediaType::CodePython => lemma_mime_round_trip_CodePython(),
        MediaType::CodeGo => lemma_mime_round_trip_CodeGo(),
        MediaType::CodeJava => lemma_mime_round_trip_CodeJava(),
        MediaType::CodeKotlin => lemma_mime_round_trip_CodeKotlin(),
        MediaType::CodeSwift => lemma_mime_round_trip_CodeSwift(),
        MediaType::CodeCpp => lemma_mime_round_trip_CodeCpp(),
        MediaType::CodeC => lemma_mime_round_trip_CodeC(),
        MediaType::CodeSql => lemma_mime_round_trip_CodeSql(),
        MediaType::CodeShell => lemma_mime_round_trip_CodeShell(),
        MediaType::CodeDockerfile => lemma_mime_round_trip_CodeDockerfile(),
        MediaType::Pdf => lemma_mime_round_trip_Pdf(),
        MediaType::Docx => lemma_mime_round_trip_Docx(),
        MediaType::Pptx => lemma_mime_round_trip_Pptx(),
        MediaType::Xlsx => lemma_mime_round_trip_Xlsx(),
        MediaType::Parquet => lemma_mime_round_trip_Parquet(),
        MediaType::Avro => lemma_mime_round_trip_Avro(),
        MediaType::ImagePng => lemma_mime_round_trip_ImagePng(),
        MediaType::ImageJpeg => lemma_mime_round_trip_ImageJpeg(),
        MediaType::ImageWebp => lemma_mime_round_trip_ImageWebp(),
        MediaType::ImageGif => lemma_mime_round_trip_ImageGif(),
        MediaType::ImageSvg => lemma_mime_round_trip_ImageSvg(),
        MediaType::AudioMp3 => lemma_mime_round_trip_AudioMp3(),
        MediaType::AudioWav => lemma_mime_round_trip_AudioWav(),
        MediaType::AudioM4a => lemma_mime_round_trip_AudioM4a(),
        MediaType::VideoMp4 => lemma_mime_round_trip_VideoMp4(),
        MediaType::VideoWebm => lemma_mime_round_trip_VideoWebm(),
        MediaType::ArchiveZip => lemma_mime_round_trip_ArchiveZip(),
        MediaType::ArchiveTar => lemma_mime_round_trip_ArchiveTar(),
        MediaType::ArchiveGzip => lemma_mime_round_trip_ArchiveGzip(),
        MediaType::Text => lemma_mime_round_trip_Text(),
        MediaType::Binary => lemma_mime_round_trip_Binary(),
        MediaType::Unknown => lemma_mime_round_trip_Unknown(),
    }
}

/// Reading a MIME string ignores surrounding whitespace and ASCII case: the
/// string trimmed and lower-cased reads as the same media type.
pub proof fn law_mime_normalised(s: Seq<char>)
    ensures
        MediaType::from_mime_spec(lower_spec(trim_spec(s))) == MediaType::from_mime_spec(s),
{
    crate::text::lemma_normal_is_normal(s);
}

impl MediaType {
    /// Whether `a` and `b` are the two types that share a MIME name: `Text`
    /// and `TextPlain` ("text/plain"), `Binary` and `Unknown`
    /// ("application/octet-stream").
    pub open spec fn shares_mime_spec(a: MediaType, b: MediaType) -> bool {
        ||| (a == MediaType::Text && b == MediaType::TextPlain)
        ||| (a == MediaType::TextPlain && b == MediaType::Text)
        ||| (a == MediaType::Binary && b == MediaType::Unknown)
        ||| (a == MediaType::Unknown && b == MediaType::Binary)
    }
}

/// Two different media types have the same MIME name only where they are
/// `Text` and `TextPlain`, or `Binary` and `Unknown`.
pub proof fn law_mime_names_distinct(a: MediaType, b: MediaType)
    requires
        a != b,
    ensures
        a.mime_spec() == b.mime_spec() <==> MediaType::shares_mime_spec(a, b),
{
    reveal_strlit("text/plain");
    reveal_strlit("application/octet-stream");
    if a.mime_spec() == b.mime_spec() && !MediaType::shares_mime_spec(a, b) {
        // the same name reads back as the same type
        law_mime_round_trip(a);
        law_mime_round_trip(b);
        assert(a.mime_round_trip_spec() == b.mime_round_trip_spec());
        if a.mime_round_trip_spec() == MediaType::Text {
            lemma_code_mime_names_distinct(a, b);
        } else {
            lemma_unread_mime_names_distinct(a, b);
        }
    }
}

/// The source-code types that read back as `Text` have different MIME names.
proof fn lemma_code_mime_names_distinct(a: MediaType, b: MediaType)
    requires
        a != b,
        a == MediaType::CodeRust || a == MediaType::CodeCSharp || a == MediaType::CodeTypeScript || a == MediaType::CodeJavaScript || a == MediaType::CodePython || a == MediaType::CodeGo || a == MediaType::CodeJava || a == MediaType::CodeKotlin || a == MediaType::CodeSwift || a == MediaType::CodeCpp || a == MediaType::CodeC || a == MediaType::CodeShell || a == MediaType::CodeDockerfile,
        b == MediaType::CodeRust || b == MediaType::CodeCSharp || b == MediaType::CodeTypeScript || b == MediaType::CodeJavaScript || b == MediaType::CodePython || b == MediaType::CodeGo || b == MediaType::CodeJava || b == MediaType::CodeKotlin || b == MediaType::CodeSwift || b == MediaType::CodeCpp || b == MediaType::CodeC || b == MediaType::CodeShell || b == MediaType::CodeDockerfile,
    ensures
        a.mime_spec() != b.mime_spec(),
{
    reveal_strlit("text/x-rust");
    reveal_strlit("text/x-csharp");
    reveal_strlit("text/x-typescript");
    reveal_strlit("text/javascript");
    reveal_strlit("text/x-python");
    reveal_strlit("text/x-go");
    reveal_strlit("text/x-java");
    reveal_strlit("text/x-kotlin");
    reveal_strlit("text/x-swift");
    reveal_strlit("text/x-c++");
    reveal_strlit("text/x-c");
    reveal_strlit("text/x-shellscript");
    reveal_strlit("text/x-dockerfile-config");
    match a {
        MediaType::CodeRust => {
            match b {
                MediaType::CodeRust => {},
                MediaType::CodeCSharp => { assert("text/x-rust"@.len() != "text/x-csharp"@.len()); },
                MediaType::CodeTypeScript => { assert("text/x-rust"@.len() != "text/x-typescript"@.len()); },
                MediaType::CodeJavaScript => { assert("text/x-rust"@.len() != "text/javascript"@.len()); },
                MediaType::CodePython => { assert("text/x-rust"@.len() != "text/x-python"@.len()); },
                MediaType::CodeGo => { assert("text/x-rust"@.len() != "text/x-go"@.len()); },
                MediaType::CodeJava => { assert("text/x-rust"@[7] != "text/x-java"@[7]); },
                MediaType::CodeKotlin => { assert("text/x-rust"@.len() != "text/x-kotlin"@.len()); },
                MediaType::CodeSwift => { assert("text/x-rust"@.len() != "text/x-swift"@.len()); },
                MediaType::CodeCpp => { assert("text/x-rust"@.len() != "text/x-c++"@.len()); },
                MediaType::CodeC => { assert("text/x-rust"@.len() != "text/x-c"@.len()); },
                MediaType::CodeShell => { assert("text/x-rust"@.len() != "text/x-shellscript"@.len()); },
                MediaType::CodeDockerfile => { assert("text/x-rust"@.len() != "text/x-dockerfile-config"@.len()); },
                _ => {},
            }
        },
        MediaType::CodeCSharp => {
            match b {
                MediaType::CodeRust => { assert("text/x-csharp"@.len() != "text/x-rust"@.len()); },
                MediaType::CodeCSharp => {},
                MediaType::CodeTypeScript => { assert("text/x-csharp"@.len() != "text/x-typescript"@.len()); },
                MediaType::CodeJavaScript => { assert("text/x-csharp"@.len() != "text/javascript"@.len()); },
                MediaType::CodePython => { assert("text/x-csharp"@[7] != "text/x-python"@[7]); },
                MediaType::CodeGo => { assert("text/x-csharp"@.len() != "text/x-go"@.len()); },
                MediaType::CodeJava => { assert("text/x-csharp"@.len() != "text/x-java"@.len()); },
                MediaType::CodeKotlin => { assert("text/x-csharp"@[7] != "text/x-kotlin"@[7]); },
                MediaType::CodeSwift => { assert("text/x-csharp"@.len() != "text/x-swift"@.len()); },
                MediaType::CodeCpp => { assert("text/x-csharp"@.len() != "text/x-c++"@.len()); },
                MediaType::CodeC => { assert("text/x-csharp"@.len() != "text/x-c"@.len()); },
                MediaType::CodeShell => { assert("text/x-csharp"@.len() != "text/x-shellscript"@.len()); },
                MediaType::CodeDockerfile => { assert("text/x-csharp"@.len() != "text/x-dockerfile-config"@.len()); },
                _ => {},
            }
        },
        MediaType::CodeTypeScript => {
            match b {
                MediaType::CodeRust => { assert("text/x-typescript"@.len() != "text/x-rust"@.len()); },
                MediaType::CodeCSharp => { assert("text/x-typescript"@.len() != "text/x-csharp"@.len()); },
                MediaType::CodeTypeScript => {},
                MediaType::CodeJavaScript => { assert("text/x-typescript"@.len() != "text/javascript"@.len()); },
                MediaType::CodePython => { assert("text/x-typescript"@.len() != "text/x-python"@.len()); },
                MediaType::CodeGo => { assert("text/x-typescript"@.len() != "text/x-go"@.len()); },
                MediaType::CodeJava => { assert("text/x-typescript"@.len() != "text/x-java"@.len()); },
                MediaType::CodeKotlin => { assert("text/x-typescript"@.len() != "text/x-kotlin"@.len()); },
                MediaType::CodeSwift => { assert("text/x-typescript"@.len() != "text/x-swift"@.len()); },
                MediaType::CodeCpp => { assert("text/x-typescript"@.len() != "text/x-c++"@.len()); },
                MediaType::CodeC => { assert("text/x-typescript"@.len() != "text/x-c"@.len()); },
                MediaType::CodeShell => { assert("text/x-typescript"@.len() != "text/x-shellscript"@.len()); },
                MediaType::CodeDockerfile => { assert("text/x-typescript"@.len() != "text/x-dockerfile-config"@.len()); },
                _ => {},
            }
        },
        MediaType::CodeJavaScript => {
            match b {
                MediaType::CodeRust => { assert("text/javascript"@.len() != "text/x-rust"@.len()); },
                MediaType::CodeCSharp => { assert("text/javascript"@.len() != "text/x-csharp"@.len()); },
                MediaType::CodeTypeScript => { assert("text/javascript"@.len() != "text/x-typescript"@.len()); },
                MediaType::CodeJavaScript => {},
                MediaType::CodePython => { assert("text/javascript"@.len() != "text/x-python"@.len()); },
                MediaType::CodeGo => { assert("text/javascript"@.len() != "text/x-go"@.len()); },
                MediaType::CodeJava => { assert("text/javascript"@.len() != "text/x-java"@.len()); },
                MediaType::CodeKotlin => { assert("text/javascript"@.len() != "text/x-kotlin"@.len()); },
                MediaType::CodeSwift => { assert("text/javascript"@.len() != "text/x-swift"@.len()); },
                MediaType::CodeCpp => { assert("text/javascript"@.len() != "text/x-c++"@.len()); },
                MediaType::CodeC => { assert("text/javascript"@.len() != "text/x-c"@.len()); },
                MediaType::CodeShell => { assert("text/javascript"@.len() != "text/x-shellscript"@.len()); },
                MediaType::CodeDockerfile => { assert("text/javascript"@.len() != "text/x-dockerfile-config"@.len()); },
                _ => {},
            }
        },
        MediaType::CodePython => {
            match b {
                MediaType::CodeRust => { assert("text/x-python"@.len() != "text/x-rust"@.len()); },
                MediaType::CodeCSharp => { assert("text/x-python"@[7] != "text/x-csharp"@[7]); },
                MediaType::CodeTypeScript => { assert("text/x-python"@.len() != "text/x-typescript"@.len()); },
                MediaType::CodeJavaScript => { assert("text/x-python"@.len() != "text/javascript"@.len()); },
                MediaType::CodePython => {},
                MediaType::CodeGo => { assert("text/x-python"@.len() != "text/x-go"@.len()); },
                MediaType::CodeJava => { assert("text/x-python"@.len() != "text/x-java"@.len()); },
                MediaType::CodeKotlin => { assert("text/x-python"@[7] != "text/x-kotlin"@[7]); },
                MediaType::CodeSwift => { assert("text/x-python"@.len() != "text/x-swift"@.len()); },
                MediaType::CodeCpp => { assert("text/x-python"@.len() != "text/x-c++"@.len()); },
                MediaType::CodeC => { assert("text/x-python"@.len() != "text/x-c"@.len()); },
                MediaType::CodeShell => { assert("text/x-python"@.len() != "text/x-shellscript"@.len()); },
                MediaType::CodeDockerfile => { assert("text/x-python"@.len() != "text/x-dockerfile-config"@.len()); },
                _ => {},
            }
        },
        MediaType::CodeGo => {
            match b {
                MediaType::CodeRust => { assert("text/x-go"@.len() != "text/x-rust"@.len()); },
                MediaType::CodeCSharp => { assert("text/x-go"@.len() != "text/x-csharp"@.len()); },
                MediaType::CodeTypeScript => { assert("text/x-go"@.len() != "text/x-typescript"@.len()); },
                MediaType::CodeJavaScript => { assert("text/x-go"@.len() != "text/javascript"@.len()); },
                MediaType::CodePython => { assert("text/x-go"@.len() != "text/x-python"@.len()); },
                MediaType::CodeGo => {},
                MediaType::CodeJava => { assert("text/x-go"@.len() != "text/x-java"@.len()); },
                MediaType::CodeKotlin => { assert("text/x-go"@.len() != "text/x-kotlin"@.len()); },
                MediaType::CodeSwift => { assert("text/x-go"@.len() != "text/x-swift"@.len()); },
                MediaType::CodeCpp => { assert("text/x-go"@.len() != "text/x-c++"@.len()); },
                MediaType::CodeC => { assert("text/x-go"@.len() != "text/x-c"@.len()); },
                MediaType::CodeShell => { assert("text/x-go"@.len() != "text/x-shellscript"@.len()); },
                MediaType::CodeDockerfile => { assert("text/x-go"@.len() != "text/x-dockerfile-config"@.len()); },
                _ => {},
            }
        },
        MediaType::CodeJava => {
            match b {
                MediaType::CodeRust => { assert("text/x-java"@[7] != "text/x-rust"@[7]); },
                MediaType::CodeCSharp => { assert("text/x-java"@.len() != "text/x-csharp"@.len()); },
                MediaType::CodeTypeScript => { assert("text/x-java"@.len() != "text/x-typescript"@.len()); },
                MediaType::CodeJavaScript => { assert("text/x-java"@.len() != "text/javascript"@.len()); },
                MediaType::CodePython => { assert("text/x-java"@.len() != "text/x-python"@.len()); },
                MediaType::CodeGo => { assert("text/x-java"@.len() != "text/x-go"@.len()); },
                MediaType::CodeJava => {},
                MediaType::CodeKotlin => { assert("text/x-java"@.len() != "text/x-kotlin"@.len()); },
                MediaType::CodeSwift => { assert("text/x-java"@.len() != "text/x-swift"@.len()); },
                MediaType::CodeCpp => { assert("text/x-java"@.len() != "text/x-c++"@.len()); },
                MediaType::CodeC => { assert("text/x-java"@.len() != "text/x-c"@.len()); },
                MediaType::CodeShell => { assert("text/x-java"@.len() != "text/x-shellscript"@.len()); },
                MediaType::CodeDockerfile => { assert("text/x-java"@.len() != "text/x-dockerfile-config"@.len()); },
                _ => {},
            }
        },
        MediaType::CodeKotlin => {
            match b {
                MediaType::CodeRust => { assert("text/x-kotlin"@.len() != "text/x-rust"@.len()); },
                MediaType::CodeCSharp => { assert("text/x-kotlin"@[7] != "text/x-csharp"@[7]); },
                MediaType::CodeTypeScript => { assert("text/x-kotlin"@.len() != "text/x-typescript"@.len()); },
                MediaType::CodeJavaScript => { assert("text/x-kotlin"@.len() != "text/javascript"@.len()); },
                MediaType::CodePython => { assert("text/x-kotlin"@[7] != "text/x-python"@[7]); },
                MediaType::CodeGo => { assert("text/x-kotlin"@.len() != "text/x-go"@.len()); },
                MediaType::CodeJava => { assert("text/x-kotlin"@.len() != "text/x-java"@.len()); },
                MediaType::CodeKotlin => {},
                MediaType::CodeSwift => { assert("text/x-kotlin"@.len() != "text/x-swift"@.len()); },
                MediaType::CodeCpp => { assert("text/x-kotlin"@.len() != "text/x-c++"@.len()); },
                MediaType::CodeC => { assert("text/x-kotlin"@.len() != "text/x-c"@.len()); },
                MediaType::CodeShell => { assert("text/x-kotlin"@.len() != "text/x-shellscript"@.len()); },
                MediaType::CodeDockerfile => { assert("text/x-kotlin"@.len() != "text/x-dockerfile-config"@.len()); },
                _ => {},
            }
        },
        MediaType::CodeSwift => {
            match b {
                MediaType::CodeRust => { assert("text/x-swift"@.len() != "text/x-rust"@.len()); },
                MediaType::CodeCSharp => { assert("text/x-swift"@.len() != "text/x-csharp"@.len()); },
                MediaType::CodeTypeScript => { assert("text/x-swift"@.len() != "text/x-typescript"@.len()); },
                MediaType::CodeJavaScript => { assert("text/x-swift"@.len() != "text/javascript"@.len()); },
                MediaType::CodePython => { assert("text/x-swift"@.len() != "text/x-python"@.len()); },
                MediaType::CodeGo => { assert("text/x-swift"@.len() != "text/x-go"@.len()); },
                MediaType::CodeJava => { assert("text/x-swift"@.len() != "text/x-java"@.len()); },
                MediaType::CodeKotlin => { assert("text/x-swift"@.len() != "text/x-kotlin"@.len()); },
                MediaType::CodeSwift => {},
                MediaType::CodeCpp => { assert("text/x-swift"@.len() != "text/x-c++"@.len()); },
                MediaType::CodeC => { assert("text/x-swift"@.len() != "text/x-c"@.len()); },
                MediaType::CodeShell => { assert("text/x-swift"@.len() != "text/x-shellscript"@.len()); },
                MediaType::CodeDockerfile => { assert("text/x-swift"@.len() != "text/x-dockerfile-config"@.len()); },
                _ => {},
            }
        },
        MediaType::CodeCpp => {
            match b {
                MediaType::CodeRust => { assert("text/x-c++"@.len() != "text/x-rust"@.len()); },
                MediaType::CodeCSharp => { assert("text/x-c++"@.len() != "text/x-csharp"@.len()); },
                MediaType::CodeTypeScript => { assert("text/x-c++"@.len() != "text/x-typescript"@.len()); },
                MediaType::CodeJavaScript => { assert("text/x-c++"@.len() != "text/javascript"@.len()); },
                MediaType::CodePython => { assert("text/x-c++"@.len() != "text/x-python"@.len()); },
                MediaType::CodeGo => { assert("text/x-c++"@.len() != "text/x-go"@.len()); },
                MediaType::CodeJava => { assert("text/x-c++"@.len() != "text/x-java"@.len()); },
                MediaType::CodeKotlin => { assert("text/x-c++"@.len() != "text/x-kotlin"@.len()); },
                MediaType::CodeSwift => { assert("text/x-c++"@.len() != "text/x-swift"@.len()); },
                MediaType::CodeCpp => {},
                MediaType::CodeC => { assert("text/x-c++"@.len() != "text/x-c"@.len()); },
                MediaType::CodeShell => { assert("text/x-c++"@.len() != "text/x-shellscript"@.len()); },
                MediaType::CodeDockerfile => { assert("text/x-c++"@.len() != "text/x-dockerfile-config"@.len()); },
                _ => {},
            }
        },
        MediaType::CodeC => {
            match b {
                MediaType::CodeRust => { assert("text/x-c"@.len() != "text/x-rust"@.len()); },
                MediaType::CodeCSharp => { assert("text/x-c"@.len() != "text/x-csharp"@.len()); },
                MediaType::CodeTypeScript => { assert("text/x-c"@.len() != "text/x-typescript"@.len()); },
                MediaType::CodeJavaScript => { assert("text/x-c"@.len() != "text/javascript"@.len()); },
                MediaType::CodePython => { assert("text/x-c"@.len() != "text/x-python"@.len()); },
                MediaType::CodeGo => { assert("text/x-c"@.len() != "text/x-go"@.len()); },
                MediaType::CodeJava => { assert("text/x-c"@.len() != "text/x-java"@.len()); },
                MediaType::CodeKotlin => { assert("text/x-c"@.len() != "text/x-kotlin"@.len()); },
                MediaType::CodeSwift => { assert("text/x-c"@.len() != "text/x-swift"@.len()); },
                MediaType::CodeCpp => { assert("text/x-c"@.len() != "text/x-c++"@.len()); },
                MediaType::CodeC => {},
                MediaType::CodeShell => { assert("text/x-c"@.len() != "text/x-shellscript"@.len()); },
                MediaType::CodeDockerfile => { assert("text/x-c"@.len() != "text/x-dockerfile-config"@.len()); },
                _ => {},
            }
        },
        MediaType::CodeShell => {
            match b {
                MediaType::CodeRust => { assert("text/x-shellscript"@.len() != "text/x-rust"@.len()); },
                MediaType::CodeCSharp => { assert("text/x-shellscript"@.len() != "text/x-csharp"@.len()); },
                MediaType::CodeTypeScript => { assert("text/x-shellscript"@.len() != "text/x-typescript"@.len()); },
                MediaType::CodeJavaScript => { assert("text/x-shellscript"@.len() != "text/javascript"@.len()); },
                MediaType::CodePython => { assert("text/x-shellscript"@.len() != "text/x-python"@.len()); },
                MediaType::CodeGo => { assert("text/x-shellscript"@.len() != "text/x-go"@.len()); },
                MediaType::CodeJava => { assert("text/x-shellscript"@.len() != "text/x-java"@.len()); },
                MediaType::CodeKotlin => { assert("text/x-shellscript"@.len() != "text/x-kotlin"@.len()); },
                MediaType::CodeSwift => { assert("text/x-shellscript"@.len() != "text/x-swift"@.len()); },
                MediaType::CodeCpp => { assert("text/x-shellscript"@.len() != "text/x-c++"@.len()); },
                MediaType::CodeC => { assert("text/x-shellscript"@.len() != "text/x-c"@.len()); },
                MediaType::CodeShell => {},
                MediaType::CodeDockerfile => { assert("text/x-shellscript"@.len() != "text/x-dockerfile-config"@.len()); },
                _ => {},
            }
        },
        MediaType::CodeDockerfile => {
            match b {
                MediaType::CodeRust => { assert("text/x-dockerfile-config"@.len() != "text/x-rust"@.len()); },
                MediaType::CodeCSharp => { assert("text/x-dockerfile-config"@.len() != "text/x-csharp"@.len()); },
                MediaType::CodeTypeScript => { assert("text/x-dockerfile-config"@.len() != "text/x-typescript"@.len()); },
                MediaType::CodeJavaScript => { assert("text/x-dockerfile-config"@.len() != "text/javascript"@.len()); },
                MediaType::CodePython => { assert("text/x-dockerfile-config"@.len() != "text/x-python"@.len()); },
                MediaType::CodeGo => { assert("text/x-dockerfile-config"@.len() != "text/x-go"@.len()); },
                MediaType::CodeJava => { assert("text/x-dockerfile-config"@.len() != "text/x-java"@.len()); },
                MediaType::CodeKotlin => { assert("text/x-dockerfile-config"@.len() != "text/x-kotlin"@.len()); },
                MediaType::CodeSwift => { assert("text/x-dockerfile-config"@.len() != "text/x-swift"@.len()); },
                MediaType::CodeCpp => { assert("text/x-dockerfile-config"@.len() != "text/x-c++"@.len()); },
                MediaType::CodeC => { assert("text/x-dockerfile-config"@.len() != "text/x-c"@.len()); },
                MediaType::CodeShell => { assert("text/x-dockerfile-config"@.len() != "text/x-shellscript"@.len()); },
                MediaType::CodeDockerfile => {},
                _ => {},
            }
        },
        _ => {},
    }
}

/// The types whose MIME names read back as `Unknown` have different names.
proof fn lemma_unread_mime_names_distinct(a: MediaType, b: MediaType)
    requires
        a != b,
        a == MediaType::CodeSql || a == MediaType::Docx || a == MediaType::Pptx || a == MediaType::Xlsx || a == MediaType::Parquet || a == MediaType::Avro,
        b == MediaType::CodeSql || b == MediaType::Docx || b == MediaType::Pptx || b == MediaType::Xlsx || b == MediaType::Parquet || b == MediaType::Avro,
    ensures
        a.mime_spec() != b.mime_spec(),
{
    reveal_strlit("application/sql");
    reveal_strlit("application/vnd.openxmlformats-officedocument.wordprocessingml.document");
    reveal_strlit("application/vnd.openxmlformats-officedocument.presentationml.presentation");
    reveal_strlit("application/vnd.openxmlformats-officedocument.spreadsheetml.sheet");
    reveal_strlit("application/x-parquet");
    reveal_strlit("application/avro");
    match a {
        MediaType::CodeSql => {
            match b {
                MediaType::CodeSql => {},
                MediaType::Docx => { assert("application/sql"@.len() != "application/vnd.openxmlformats-officedocument.wordprocessingml.document"@.len()); },
                MediaType::Pptx => { assert("application/sql"@.len() != "application/vnd.openxmlformats-officedocument.presentationml.presentation"@.len()); },
                MediaType::Xlsx => { assert("application/sql"@.len() != "application/vnd.openxmlformats-officedocument.spreadsheetml.sheet"@.len()); },
                MediaType::Parquet => { assert("application/sql"@.len() != "application/x-parquet"@.len()); },
                MediaType::Avro => { assert("application/sql"@.len() != "application/avro"@.len()); },
                _ => {},
            }
        },
        MediaType::Docx => {
            match b {
                MediaType::CodeSql => { assert("application/vnd.openxmlformats-officedocument.wordprocessingml.document"@.len() != "application/sql"@.len()); },
                MediaType::Docx => {},
                MediaType::Pptx => { assert("application/vnd.openxmlformats-officedocument.wordprocessingml.document"@.len() != "application/vnd.openxmlformats-officedocument.presentationml.presentation"@.len()); },
                MediaType::Xlsx => { assert("application/vnd.openxmlformats-officedocument.wordprocessingml.document"@.len() != "application/vnd.openxmlformats-officedocument.spreadsheetml.sheet"@.len()); },
                MediaType::Parquet => { assert("application/vnd.openxmlformats-officedocument.wordprocessingml.document"@.len() != "application/x-parquet"@.len()); },
                MediaType::Avro => { assert("application/vnd.openxmlformats-officedocument.wordprocessingml.document"@.len() != "application/avro"@.len()); },
                _ => {},
            }
        },
        MediaType::Pptx => {
            match b {
                MediaType::CodeSql => { assert("application/vnd.openxmlformats-officedocument.presentationml.presentation"@.len() != "application/sql"@.len()); },
                MediaType::Docx => { assert("application/vnd.openxmlformats-officedocument.presentationml.presentation"@.len() != "application/vnd.openxmlformats-officedocument.wordprocessingml.document"@.len()); },
                MediaType::Pptx => {},
                MediaType::Xlsx => { assert("application/vnd.openxmlformats-officedocument.presentationml.presentation"@.len() != "application/vnd.openxmlformats-officedocument.spreadsheetml.sheet"@.len()); },
                MediaType::Parquet => { assert("application/vnd.openxmlformats-officedocument.presentationml.presentation"@.len() != "application/x-parquet"@.len()); },
                MediaType::Avro => { assert("application/vnd.openxmlformats-officedocument.presentationml.presentation"@.len() != "application/avro"@.len()); },
                _ => {},
            }
        },
        MediaType::Xlsx => {
            match b {
                MediaType::CodeSql => { assert("application/vnd.openxmlformats-officedocument.spreadsheetml.sheet"@.len() != "application/sql"@.len()); },
                MediaType::Docx => { assert("application/vnd.openxmlformats-officedocument.spreadsheetml.sheet"@.len() != "application/vnd.openxmlformats-officedocument.wordprocessingml.document"@.len()); },
                MediaType::Pptx => { assert("application/vnd.openxmlformats-officedocument.spreadsheetml.sheet"@.len() != "application/vnd.openxmlformats-officedocument.presentationml.presentation"@.len()); },
                MediaType::Xlsx => {},
                MediaType::Parquet => { assert("application/vnd.openxmlformats-officedocument.spreadsheetml.sheet"@.len() != "application/x-parquet"@.len()); },
                MediaType::Avro => { assert("application/vnd.openxmlformats-officedocument.spreadsheetml.sheet"@.len() != "application/avro"@.len()); },
                _ => {},
            }
        },
        MediaType::Parquet => {
            match b {
                MediaType::CodeSql => { assert("application/x-parquet"@.len() != "application/sql"@.len()); },
                MediaType::Docx => { assert("application/x-parquet"@.len() != "application/vnd.openxmlformats-officedocument.wordprocessingml.document"@.len()); },
                MediaType::Pptx => { assert("application/x-parquet"@.len() != "application/vnd.openxmlformats-officedocument.presentationml.presentation"@.len()); },
                MediaType::Xlsx => { assert("application/x-parquet"@.len() != "application/vnd.openxmlformats-officedocument.spreadsheetml.sheet"@.len()); },
                MediaType::Parquet => {},
                MediaType::Avro => { assert("application/x-parquet"@.len() != "application/avro"@.len()); },
                _ => {},
            }
        },
        MediaType::Avro => {
            match b {
                MediaType::CodeSql => { assert("application/avro"@.len() != "application/sql"@.len()); },
                MediaType::Docx => { assert("application/avro"@.len() != "application/vnd.openxmlformats-officedocument.wordprocessingml.document"@.len()); },
                MediaType::Pptx => { assert("application/avro"@.len() != "application/vnd.openxmlformats-officedocument.presentationml.presentation"@.len()); },
                MediaType::Xlsx => { assert("application/avro"@.len() != "application/vnd.openxmlformats-officedocument.spreadsheetml.sheet"@.len()); },
                MediaType::Parquet => { assert("application/avro"@.len() != "application/x-parquet"@.len()); },
                MediaType::Avro => {},
                _ => {},
            }
        },
        _ => {},
    }
}

proof fn lemma_extension_table_0()
    ensures
        MediaType::from_ext_spec(Some("txt"@)) == MediaType::TextPlain,
        MediaType::from_ext_spec(Some("md"@)) == MediaType::TextMarkdown,
        MediaType::from_ext_spec(Some("markdown"@)) == MediaType::TextMarkdown,
        MediaType::from_ext_spec(Some("html"@)) == MediaType::TextHtml,
        MediaType::from_ext_spec(Some("htm"@)) == MediaType::TextHtml,
        MediaType::from_ext_spec(Some("xml"@)) == MediaType::TextXml,
        MediaType::from_ext_spec(Some("csv"@)) == MediaType::TextCsv,
        MediaType::from_ext_spec(Some("toml"@)) == MediaType::TextToml,
        MediaType::from_ext_spec(Some("yaml"@)) == MediaType::TextYaml,
        MediaType::from_ext_spec(Some("yml"@)) == MediaType::TextYaml,
        MediaType::from_ext_spec(Some("json"@)) == MediaType::TextJson,
        MediaType::from_ext_spec(Some("rs"@)) == MediaType::CodeRust,
        MediaType::from_ext_spec(Some("cs"@)) == MediaType::CodeCSharp,
        MediaType::from_ext_spec(Some("ts"@)) == MediaType::CodeTypeScript,
        MediaType::from_ext_spec(Some("js"@)) == MediaType::CodeJavaScript,
{
    reveal_strlit("cs");
    reveal_strlit("csv");
    reveal_strlit("htm");
    reveal_strlit("html");
    reveal_strlit("js");
    reveal_strlit("json");
    reveal_strlit("markdown");
    reveal_strlit("md");
    reveal_strlit("rs");
    reveal_strlit("toml");
    reveal_strlit("ts");
    reveal_strlit("txt");
    reveal_strlit("xml");
    reveal_strlit("yaml");
    reveal_strlit("yml");
    assert(MediaType::from_ext_spec(Some("txt"@)) == MediaType::TextPlain) by {
        lemma_normal_text("txt"@);
    }
    assert(MediaType::from_ext_spec(Some("md"@)) == MediaType::TextMarkdown) by {
        lemma_normal_text("md"@);
        assert("md"@.len() != "txt"@.len());
    }
    assert(MediaType::from_ext_spec(Some("markdown"@)) == MediaType::TextMarkdown) by {
        lemma_normal_text("markdown"@);
        assert("markdown"@.len() != "txt"@.len() && "markdown"@.len() != "md"@.len());
    }
    assert(MediaType::from_ext_spec(Some("html"@)) == MediaType::TextHtml) by {
        lemma_normal_text("html"@);
        assert("html"@.len() != "txt"@.len() && "html"@.len() != "md"@.len() && "html"@.len() != "markdown"@.len());
    }
    assert(MediaType::from_ext_spec(Some("htm"@)) == MediaType::TextHtml) by {
        lemma_normal_text("htm"@);
        assert("htm"@[0] != "txt"@[0] && "htm"@.len() != "md"@.len() && "htm"@.len() != "markdown"@.len() && "htm"@.len() != "html"@.len());
    }
    assert(MediaType::from_ext_spec(Some("xml"@)) == MediaType::TextXml) by {
        lemma_normal_text("xml"@);
        assert("xml"@[0] != "txt"@[0] && "xml"@.len() != "md"@.len() && "xml"@.len() != "markdown"@.len() && "xml"@.len() != "html"@.len() && "xml"@[0] != "htm"@[0]);
    }
    assert(MediaType::from_ext_spec(Some("csv"@)) == MediaType::TextCsv) by {
        lemma_normal_text("csv"@);
        assert("csv"@[0] != "txt"@[0] && "csv"@.len() != "md"@.len() && "csv"@.len() != "markdown"@.len() && "csv"@.len() != "html"@.len() && "csv"@[0] != "htm"@[0] && "csv"@[0] != "xml"@[0]);
    }
    assert(MediaType::from_ext_spec(Some("toml"@)) == MediaType::TextToml) by {
        lemma_normal_text("toml"@);
        assert("toml"@.len() != "txt"@.len() && "toml"@.len() != "md"@.len() && "toml"@.len() != "markdown"@.len() && "toml"@[0] != "html"@[0] && "toml"@.len() != "htm"@.len() && "toml"@.len() != "xml"@.len() && "toml"@.len() != "csv"@.len());
    }
    assert(MediaType::from_ext_spec(Some("yaml"@)) == MediaType::TextYaml) by {
        lemma_normal_text("yaml"@);
        assert("yaml"@.len() != "txt"@.len() && "yaml"@.len() != "md"@.len() && "yaml"@.len() != "markdown"@.len() && "yaml"@[0] != "html"@[0] && "yaml"@.len() != "htm"@.len() && "yaml"@.len() != "xml"@.len() && "yaml"@.len() != "csv"@.len() && "yaml"@[0] != "toml"@[0]);
    }
    assert(MediaType::from_ext_spec(Some("yml"@)) == MediaType::TextYaml) by {
        lemma_normal_text("yml"@);
        assert("yml"@[0] != "txt"@[0] && "yml"@.len() != "md"@.len() && "yml"@.len() != "markdown"@.len() && "yml"@.len() != "html"@.len() && "yml"@[0] != "htm"@[0] && "yml"@[0] != "xml"@[0] && "yml"@[0] != "csv"@[0] && "yml"@.len() != "toml"@.len() && "yml"@.len() != "yaml"@.len());
    }
    assert(MediaType::from_ext_spec(Some("json"@)) == MediaType::TextJson) by {
        lemma_normal_text("json"@);
        assert("json"@.len() != "txt"@.len() && "json"@.len() != "md"@.len() && "json"@.len() != "markdown"@.len() && "json"@[0] != "html"@[0] && "json"@.len() != "htm"@.len() && "json"@.len() != "xml"@.len() && "json"@.len() != "csv"@.len() && "json"@[0] != "toml"@[0] && "json"@[0] != "yaml"@[0] && "json"@.len() != "yml"@.len());
    }
    assert(MediaType::from_ext_spec(Some("rs"@)) == MediaType::CodeRust) by {
        lemma_normal_text("rs"@);
        assert("rs"@.len() != "txt"@.len() && "rs"@[0] != "md"@[0] && "rs"@.len() != "markdown"@.len() && "rs"@.len() != "html"@.len() && "rs"@.len() != "htm"@.len() && "rs"@.len() != "xml"@.len() && "rs"@.len() != "csv"@.len() && "rs"@.len() != "toml"@.len() && "rs"@.len() != "yaml"@.len() && "rs"@.len() != "yml"@.len() && "rs"@.len() != "json"@.len());
    }
    assert(MediaType::from_ext_spec(Some("cs"@)) == MediaType::CodeCSharp) by {
        lemma_normal_text("cs"@);
        assert("cs"@.len() != "txt"@.len() && "cs"@[0] != "md"@[0] && "cs"@.len() != "markdown"@.len() && "cs"@.len() != "html"@.len() && "cs"@.len() != "htm"@.len() && "cs"@.len() != "xml"@.len() && "cs"@.len() != "csv"@.len() && "cs"@.len() != "toml"@.len() && "cs"@.len() != "yaml"@.len() && "cs"@.len() != "yml"@.len() && "cs"@.len() != "json"@.len() && "cs"@[0] != "rs"@[0]);
    }
    assert(MediaType::from_ext_spec(Some("ts"@)) == MediaType::CodeTypeScript) by {
        lemma_normal_text("ts"@);
        assert("ts"@.len() != "txt"@.len() && "ts"@[0] != "md"@[0] && "ts"@.len() != "markdown"@.len() && "ts"@.len() != "html"@.len() && "ts"@.len() != "htm"@.len() && "ts"@.len() != "xml"@.len() && "ts"@.len() != "csv"@.len() && "ts"@.len() != "toml"@.len() && "ts"@.len() != "yaml"@.len() && "ts"@.len() != "yml"@.len() && "ts"@.len() != "json"@.len() && "ts"@[0] != "rs"@[0] && "ts"@[0] != "cs"@[0]);
    }
    assert(MediaType::from_ext_spec(Some("js"@)) == MediaType::CodeJavaScript) by {
        lemma_normal_text("js"@);
        assert("js"@.len() != "txt"@.len() && "js"@[0] != "md"@[0] && "js"@.len() != "markdown"@.len() && "js"@.len() != "html"@.len() && "js"@.len() != "htm"@.len() && "js"@.len() != "xml"@.len() && "js"@.len() != "csv"@.len() && "js"@.len() != "toml"@.len() && "js"@.len() != "yaml"@.len() && "js"@.len() != "yml"@.len() && "js"@.len() != "json"@.len() && "js"@[0] != "rs"@[0] && "js"@[0] != "cs"@[0] && "js"@[0] != "ts"@[0]);
    }
}

proof fn lemma_extension_table_1()
    ensures
        MediaType::from_ext_spec(Some("mjs"@)) == MediaType::CodeJavaScript,
        MediaType::from_ext_spec(Some("cjs"@)) == MediaType::CodeJavaScript,
        MediaType::from_ext_spec(Some("py"@)) == MediaType::CodePython,
        MediaType::from_ext_spec(Some("go"@)) == MediaType::CodeGo,
        MediaType::from_ext_spec(Some("java"@)) == MediaType::CodeJava,
        MediaType::from_ext_spec(Some("kt"@)) == MediaType::CodeKotlin,
        MediaType::from_ext_spec(Some("kts"@)) == MediaType::CodeKotlin,
        MediaType::from_ext_spec(Some("swift"@)) == MediaType::CodeSwift,
        MediaType::from_ext_spec(Some("cpp"@)) == MediaType::CodeCpp,
        MediaType::from_ext_spec(Some("cc"@)) == MediaType::CodeCpp,
        MediaType::from_ext_spec(Some("cxx"@)) == MediaType::CodeCpp,
        MediaType::from_ext_spec(Some("hpp"@)) == MediaType::CodeCpp,
        MediaType::from_ext_spec(Some("hh"@)) == MediaType::CodeCpp,
        MediaType::from_ext_spec(Some("hxx"@)) == MediaType::CodeCpp,
        MediaType::from_ext_spec(Some("c"@)) == MediaType::CodeC,
{
    reveal_strlit("c");
    reveal_strlit("cc");
    reveal_strlit("cjs");
    reveal_strlit("cpp");
    reveal_strlit("cs");
    reveal_strlit("csv");
    reveal_strlit("cxx");
    reveal_strlit("go");
    reveal_strlit("hh");
    reveal_strlit("hpp");
    reveal_strlit("htm");
    reveal_strlit("html");
    reveal_strlit("hxx");
    reveal_strlit("java");
    reveal_strlit("js");
    reveal_strlit("json");
    reveal_strlit("kt");
    reveal_strlit("kts");
    reveal_strlit("markdown");
    reveal_strlit("md");
    reveal_strlit("mjs");
    reveal_strlit("py");
    reveal_strlit("rs");
    reveal_strlit("swift");
    reveal_strlit("toml");
    reveal_strlit("ts");
    reveal_strlit("txt");
    reveal_strlit("xml");
    reveal_strlit("yaml");
    reveal_strlit("yml");
    assert(MediaType::from_ext_spec(Some("mjs"@)) == MediaType::CodeJavaScript) by {
        lemma_normal_text("mjs"@);
        assert("mjs"@[0] != "txt"@[0] && "mjs"@.len() != "md"@.len() && "mjs"@.len() != "markdown"@.len() && "mjs"@.len() != "html"@.len() && "mjs"@[0] != "htm"@[0] && "mjs"@[0] != "xml"@[0] && "mjs"@[0] != "csv"@[0] && "mjs"@.len() != "toml"@.len() && "mjs"@.len() != "yaml"@.len() && "mjs"@[0] != "yml"@[0] && "mjs"@.len() != "json"@.len() && "mjs"@.len() != "rs"@.len() && "mjs"@.len() != "cs"@.len() && "mjs"@.len() != "ts"@.len() && "mjs"@.len() != "js"@.len());
    }
    assert(MediaType::from_ext_spec(Some("cjs"@)) == MediaType::CodeJavaScript) by {
        lemma_normal_text("cjs"@);
        assert("cjs"@[0] != "txt"@[0] && "cjs"@.len() != "md"@.len() && "cjs"@.len() != "markdown"@.len() && "cjs"@.len() != "html"@.len() && "cjs"@[0] != "htm"@[0] && "cjs"@[0] != "xml"@[0] && "cjs"@[1] != "csv"@[1] && "cjs"@.len() != "toml"@.len() && "cjs"@.len() != "yaml"@.len() && "cjs"@[0] != "yml"@[0] && "cjs"@.len() != "json"@.len() && "cjs"@.len() != "rs"@.len() && "cjs"@.len() != "cs"@.len() && "cjs"@.len() != "ts"@.len() && "cjs"@.len() != "js"@.len() && "cjs"@[0] != "mjs"@[0]);
    }
    assert(MediaType::from_ext_spec(Some("py"@)) == MediaType::CodePython) by {
        lemma_normal_text("py"@);
        assert("py"@.len() != "txt"@.len() && "py"@[0] != "md"@[0] && "py"@.len() != "markdown"@.len() && "py"@.len() != "html"@.len() && "py"@.len() != "htm"@.len() && "py"@.len() != "xml"@.len() && "py"@.len() != "csv"@.len() && "py"@.len() != "toml"@.len() && "py"@.len() != "yaml"@.len() && "py"@.len() != "yml"@.len() && "py"@.len() != "json"@.len() && "py"@[0] != "rs"@[0] && "py"@[0] != "cs"@[0] && "py"@[0] != "ts"@[0] && "py"@[0] != "js"@[0] && "py"@.len() != "mjs"@.len() && "py"@.len() != "cjs"@.len());
    }
    assert(MediaType::from_ext_spec(Some("go"@)) == MediaType::CodeGo) by {
        lemma_normal_text("go"@);
        assert("go"@.len() != "txt"@.len() && "go"@[0] != "md"@[0] && "go"@.len() != "markdown"@.len() && "go"@.len() != "html"@.len() && "go"@.len() != "htm"@.len() && "go"@.len() != "xml"@.len() && "go"@.len() != "csv"@.len() && "go"@.len() != "toml"@.len() && "go"@.len() != "yaml"@.len() && "go"@.len() != "yml"@.len() && "go"@.len() != "json"@.len() && "go"@[0] != "rs"@[0] && "go"@[0] != "cs"@[0] && "go"@[0] != "ts"@[0] && "go"@[0] != "js"@[0] && "go"@.len() != "mjs"@.len() && "go"@.len() != "cjs"@.len() && "go"@[0] != "py"@[0]);
    }
    assert(MediaType::from_ext_spec(Some("java"@)) == MediaType::CodeJava) by {
        lemma_normal_text("java"@);
        assert("java"@.len() != "txt"@.len() && "java"@.len() != "md"@.len() && "java"@.len() != "markdown"@.len() && "java"@[0] != "html"@[0] && "java"@.len() != "htm"@.len() && "java"@.len() != "xml"@.len() && "java"@.len() != "csv"@.len() && "java"@[0] != "toml"@[0] && "java"@[0] != "yaml"@[0] && "java"@.len() != "yml"@.len() && "java"@[1] != "json"@[1] && "java"@.len() != "rs"@.len() && "java"@.len() != "cs"@.len() && "java"@.len() != "ts"@.len() && "java"@.len() != "js"@.len() && "java"@.len() != "mjs"@.len() && "java"@.len() != "cjs"@.len() && "java"@.len() != "py"@.len() && "java"@.len() != "go"@.len());
    }
    assert(MediaType::from_ext_spec(Some("kt"@)) == MediaType::CodeKotlin) by {
        lemma_normal_text("kt"@);
        assert("kt"@.len() != "txt"@.len() && "kt"@[0] != "md"@[0] && "kt"@.len() != "markdown"@.len() && "kt"@.len() != "html"@.len() && "kt"@.len() != "htm"@.len() && "kt"@.len() != "xml"@.len() && "kt"@.len() != "csv"@.len() && "kt"@.len() != "toml"@.len() && "kt"@.len() != "yaml"@.len() && "kt"@.len() != "yml"@.len() && "kt"@.len() != "json"@.len() && "kt"@[0] != "rs"@[0] && "kt"@[0] != "cs"@[0] && "kt"@[0] != "ts"@[0] && "kt"@[0] != "js"@[0] && "kt"@.len() != "mjs"@.len() && "kt"@.len() != "cjs"@.len() && "kt"@[0] != "py"@[0] && "kt"@[0] != "go"@[0] && "kt"@.len() != "java"@.len());
    }
    assert(MediaType::from_ext_spec(Some("kts"@)) == MediaType::CodeKotlin) by {
        lemma_normal_text("kts"@);
        assert("kts"@[0] != "txt"@[0] && "kts"@.len() != "md"@.len() && "kts"@.len() != "markdown"@.len() && "kts"@.len() != "html"@.len() && "kts"@[0] != "htm"@[0] && "kts"@[0] != "xml"@[0] && "kts"@[0] != "csv"@[0] && "kts"@.len() != "toml"@.len() && "kts"@.len() != "yaml"@.len() && "kts"@[0] != "yml"@[0] && "kts"@.len() != "json"@.len() && "kts"@.len() != "rs"@.len() && "kts"@.len() != "cs"@.len() && "kts"@.len() != "ts"@.len() && "kts"@.len() != "js"@.len() && "kts"@[0] != "mjs"@[0] && "kts"@[0] != "cjs"@[0] && "kts"@.len() != "py"@.len() && "kts"@.len() != "go"@.len() && "kts"@.len() != "java"@.len() && "kts"@.len() != "kt"@.len());
    }
    assert(MediaType::from_ext_spec(Some("swift"@)) == MediaType::CodeSwift) by {
        lemma_normal_text("swift"@);
        assert("swift"@.len() != "txt"@.len() && "swift"@.len() != "md"@.len() && "swift"@.len() != "markdown"@.len() && "swift"@.len() != "html"@.len() && "swift"@.len() != "htm"@.len() && "swift"@.len() != "xml"@.len() && "swift"@.len() != "csv"@.len() && "swift"@.len() != "toml"@.len() && "swift"@.len() != "yaml"@.len() && "swift"@.len() != "yml"@.len() && "swift"@.len() != "json"@.len() && "swift"@.len() != "rs"@.len() && "swift"@.len() != "cs"@.len() && "swift"@.len() != "ts"@.len() && "swift"@.len() != "js"@.len() && "swift"@.len() != "mjs"@.len() && "swift"@.len() != "cjs"@.len() && "swift"@.len() != "py"@.len() && "swift"@.len() != "go"@.len() && "swift"@.len() != "java"@.len() && "swift"@.len() != "kt"@.len() && "swift"@.len() != "kts"@.len());
    }
    assert(MediaType::from_ext_spec(Some("cpp"@)) == MediaType::CodeCpp) by {
        lemma_normal_text("cpp"@);
        assert("cpp"@[0] != "txt"@[0] && "cpp"@.len() != "md"@.len() && "cpp"@.len() != "markdown"@.len() && "cpp"@.len() != "html"@.len() && "cpp"@[0] != "htm"@[0] && "cpp"@[0] != "xml"@[0] && "cpp"@[1] != "csv"@[1] && "cpp"@.len() != "toml"@.len() && "cpp"@.len() != "yaml"@.len() && "cpp"@[0] != "yml"@[0] && "cpp"@.len() != "json"@.len() && "cpp"@.len() != "rs"@.len() && "cpp"@.len() != "cs"@.len() && "cpp"@.len() != "ts"@.len() && "cpp"@.len() != "js"@.len() && "cpp"@[0] != "mjs"@[0] && "cpp"@[1] != "cjs"@[1] && "cpp"@.len() != "py"@.len() && "cpp"@.len() != "go"@.len() && "cpp"@.len() != "java"@.len() && "cpp"@.len() != "kt"@.len() && "cpp"@[0] != "kts"@[0] && "cpp"@.len() != "swift"@.len());
    }
    assert(MediaType::from_ext_spec(Some("cc"@)) == MediaType::CodeCpp) by {
        lemma_normal_text("cc"@);
        assert("cc"@.len() != "txt"@.len() && "cc"@[0] != "md"@[0] && "cc"@.len() != "markdown"@.len() && "cc"@.len() != "html"@.len() && "cc"@.len() != "htm"@.len() && "cc"@.len() != "xml"@.len() && "cc"@.len() != "csv"@.len() && "cc"@.len() != "toml"@.len() && "cc"@.len() != "yaml"@.len() && "cc"@.len() != "yml"@.len() && "cc"@.len() != "json"@.len() && "cc"@[0] != "rs"@[0] && "cc"@[1] != "cs"@[1] && "cc"@[0] != "ts"@[0] && "cc"@[0] != "js"@[0] && "cc"@.len() != "mjs"@.len() && "cc"@.len() != "cjs"@.len() && "cc"@[0] != "py"@[0] && "cc"@[0] != "go"@[0] && "cc"@.len() != "java"@.len() && "cc"@[0] != "kt"@[0] && "cc"@.len() != "kts"@.len() && "cc"@.len() != "swift"@.len() && "cc"@.len() != "cpp"@.len());
    }
    assert(MediaType::from_ext_spec(Some("cxx"@)) == MediaType::CodeCpp) by {
        lemma_normal_text("cxx"@);
        assert("cxx"@[0] != "txt"@[0] && "cxx"@.len() != "md"@.len() && "cxx"@.len() != "markdown"@.len() && "cxx"@.len() != "html"@.len() && "cxx"@[0] != "htm"@[0] && "cxx"@[0] != "xml"@[0] && "cxx"@[1] != "csv"@[1] && "cxx"@.len() != "toml"@.len() && "cxx"@.len() != "yaml"@.len() && "cxx"@[0] != "yml"@[0] && "cxx"@.len() != "json"@.len() && "cxx"@.len() != "rs"@.len() && "cxx"@.len() != "cs"@.len() && "cxx"@.len() != "ts"@.len() && "cxx"@.len() != "js"@.len() && "cxx"@[0] != "mjs"@[0] && "cxx"@[1] != "cjs"@[1] && "cxx"@.len() != "py"@.len() && "cxx"@.len() != "go"@.len() && "cxx"@.len() != "java"@.len() && "cxx"@.len() != "kt"@.len() && "cxx"@[0] != "kts"@[0] && "cxx"@.len() != "swift"@.len() && "cxx"@[1] != "cpp"@[1] && "cxx"@.len() != "cc"@.len());
    }
    assert(MediaType::from_ext_spec(Some("hpp"@)) == MediaType::CodeCpp) by {
        lemma_normal_text("hpp"@);
        assert("hpp"@[0] != "txt"@[0] && "hpp"@.len() != "md"@.len() && "hpp"@.len() != "markdown"@.len() && "hpp"@.len() != "html"@.len() && "hpp"@[1] != "htm"@[1] && "hpp"@[0] != "xml"@[0] && "hpp"@[0] != "csv"@[0] && "hpp"@.len() != "toml"@.len() && "hpp"@.len() != "yaml"@.len() && "hpp"@[0] != "yml"@[0] && "hpp"@.len() != "json"@.len() && "hpp"@.len() != "rs"@.len() && "hpp"@.len() != "cs"@.len() && "hpp"@.len() != "ts"@.len() && "hpp"@.len() != "js"@.len() && "hpp"@[0] != "mjs"@[0] && "hpp"@[0] != "cjs"@[0] && "hpp"@.len() != "py"@.len() && "hpp"@.len() != "go"@.len() && "hpp"@.len() != "java"@.len() && "hpp"@.len() != "kt"@.len() && "hpp"@[0] != "kts"@[0] && "hpp"@.len() != "swift"@.len() && "hpp"@[0] != "cpp"@[0] && "hpp"@.len() != "cc"@.len() && "hpp"@[0] != "cxx"@[0]);
    }
    assert(MediaType::from_ext_spec(Some("hh"@)) == MediaType::CodeCpp) by {
        lemma_normal_text("hh"@);
        assert("hh"@.len() != "txt"@.len() && "hh"@[0] != "md"@[0] && "hh"@.len() != "markdown"@.len() && "hh"@.len() != "html"@.len() && "hh"@.len() != "htm"@.len() && "hh"@.len() != "xml"@.len() && "hh"@.len() != "csv"@.len() && "hh"@.len() != "toml"@.len() && "hh"@.len() != "yaml"@.len() && "hh"@.len() != "yml"@.len() && "hh"@.len() != "json"@.len() && "hh"@[0] != "rs"@[0] && "hh"@[0] != "cs"@[0] && "hh"@[0] != "ts"@[0] && "hh"@[0] != "js"@[0] && "hh"@.len() != "mjs"@.len() && "hh"@.len() != "cjs"@.len() && "hh"@[0] != "py"@[0] && "hh"@[0] != "go"@[0] && "hh"@.len() != "java"@.len() && "hh"@[0] != "kt"@[0] && "hh"@.len() != "kts"@.len() && "hh"@.len() != "swift"@.len() && "hh"@.len() != "cpp"@.len() && "hh"@[0] != "cc"@[0] && "hh"@.len() != "cxx"@.len() && "hh"@.len() != "hpp"@.len());
    }
    assert(MediaType::from_ext_spec(Some("hxx"@)) == MediaType::CodeCpp) by {
        lemma_normal_text("hxx"@);
        assert("hxx"@[0] != "txt"@[0] && "hxx"@.len() != "md"@.len() && "hxx"@.len() != "markdown"@.len() && "hxx"@.len() != "html"@.len() && "hxx"@[1] != "htm"@[1] && "hxx"@[0] != "xml"@[0] && "hxx"@[0] != "csv"@[0] && "hxx"@.len() != "toml"@.len() && "hxx"@.len() != "yaml"@.len() && "hxx"@[0] != "yml"@[0] && "hxx"@.len() != "json"@.len() && "hxx"@.len() != "rs"@.len() && "hxx"@.len() != "cs"@.len() && "hxx"@.len() != "ts"@.len() && "hxx"@.len() != "js"@.len() && "hxx"@[0] != "mjs"@[0] && "hxx"@[0] != "cjs"@[0] && "hxx"@.len() != "py"@.len() && "hxx"@.len() != "go"@.len() && "hxx"@.len() != "java"@.len() && "hxx"@.len() != "kt"@.len() && "hxx"@[0] != "kts"@[0] && "hxx"@.len() != "swift"@.len() && "hxx"@[0] != "cpp"@[0] && "hxx"@.len() != "cc"@.len() && "hxx"@[0] != "cxx"@[0] && "hxx"@[1] != "hpp"@[1] && "hxx"@.len() != "hh"@.len());
    }
    assert(MediaType::from_ext_spec(Some("c"@)) == MediaType::CodeC) by {
        lemma_normal_text("c"@);
        assert("c"@.len() != "txt"@.len() && "c"@.len() != "md"@.len() && "c"@.len() != "markdown"@.len() && "c"@.len() != "html"@.len() && "c"@.len() != "htm"@.len() && "c"@.len() != "xml"@.len() && "c"@.len() != "csv"@.len() && "c"@.len() != "toml"@.len() && "c"@.len() != "yaml"@.len() && "c"@.len() != "yml"@.len() && "c"@.len() != "json"@.len() && "c"@.len() != "rs"@.len() && "c"@.len() != "cs"@.len() && "c"@.len() != "ts"@.len() && "c"@.len() != "js"@.len() && "c"@.len() != "mjs"@.len() && "c"@.len() != "cjs"@.len() && "c"@.len() != "py"@.len() && "c"@.len() != "go"@.len() && "c"@.len() != "java"@.len() && "c"@.len() != "kt"@.len() && "c"@.len() != "kts"@.len() && "c"@.len() != "swift"@.len() && "c"@.len() != "cpp"@.len() && "c"@.len() != "cc"@.len() && "c"@.len() != "cxx"@.len() && "c"@.len() != "hpp"@.len() && "c"@.len() != "hh"@.len() && "c"@.len() != "hxx"@.len());
    }
}

proof fn lemma_extension_table_2()
    ensures
        MediaType::from_ext_spec(Some("h"@)) == MediaType::CodeC,
        MediaType::from_ext_spec(Some("sql"@)) == MediaType::CodeSql,
        MediaType::from_ext_spec(Some("sh"@)) == MediaType::CodeShell,
        MediaType::from_ext_spec(Some("bash"@)) == MediaType::CodeShell,
        MediaType::from_ext_spec(Some("zsh"@)) == MediaType::CodeShell,
        MediaType::from_ext_spec(Some("fish"@)) == MediaType::CodeShell,
        MediaType::from_ext_spec(Some("pdf"@)) == MediaType::Pdf,
        MediaType::from_ext_spec(Some("docx"@)) == MediaType::Docx,
        MediaType::from_ext_spec(Some("pptx"@)) == MediaType::Pptx,
        MediaType::from_ext_spec(Some("xlsx"@)) == MediaType::Xlsx,
        MediaType::from_ext_spec(Some("parquet"@)) == MediaType::Parquet,
        MediaType::from_ext_spec(Some("avro"@)) == MediaType::Avro,
        MediaType::from_ext_spec(Some("png"@)) == MediaType::ImagePng,
        MediaType::from_ext_spec(Some("jpg"@)) == MediaType::ImageJpeg,
        MediaType::from_ext_spec(Some("jpeg"@)) == MediaType::ImageJpeg,
{
    reveal_strlit("avro");
    reveal_strlit("bash");
    reveal_strlit("c");
    reveal_strlit("cc");
    reveal_strlit("cjs");
    reveal_strlit("cpp");
    reveal_strlit("cs");
    reveal_strlit("csv");
    reveal_strlit("cxx");
    reveal_strlit("docx");
    reveal_strlit("fish");
    reveal_strlit("go");
    reveal_strlit("h");
    reveal_strlit("hh");
    reveal_strlit("hpp");
    reveal_strlit("htm");
    reveal_strlit("html");
    reveal_strlit("hxx");
    reveal_strlit("java");
    reveal_strlit("jpeg");
    reveal_strlit("jpg");
    reveal_strlit("js");
    reveal_strlit("json");
    reveal_strlit("kt");
    reveal_strlit("kts");
    reveal_strlit("markdown");
    reveal_strlit("md");
    reveal_strlit("mjs");
    reveal_strlit("parquet");
    reveal_strlit("pdf");
    reveal_strlit("png");
    reveal_strlit("pptx");
    reveal_strlit("py");
    reveal_strlit("rs");
    reveal_strlit("sh");
    reveal_strlit("sql");
    reveal_strlit("swift");
    reveal_strlit("toml");
    reveal_strlit("ts");
    reveal_strlit("txt");
    reveal_strlit("xlsx");
    reveal_strlit("xml");
    reveal_strlit("yaml");
    reveal_strlit("yml");
    reveal_strlit("zsh");
    assert(MediaType::from_ext_spec(Some("h"@)) == MediaType::CodeC) by {
        lemma_normal_text("h"@);
        assert("h"@.len() != "txt"@.len() && "h"@.len() != "md"@.len() && "h"@.len() != "markdown"@.len() && "h"@.len() != "html"@.len() && "h"@.len() != "htm"@.len() && "h"@.len() != "xml"@.len() && "h"@.len() != "csv"@.len() && "h"@.len() != "toml"@.len() && "h"@.len() != "yaml"@.len() && "h"@.len() != "yml"@.len() && "h"@.len() != "json"@.len() && "h"@.len() != "rs"@.len() && "h"@.len() != "cs"@.len() && "h"@.len() != "ts"@.len() && "h"@.len() != "js"@.len() && "h"@.len() != "mjs"@.len() && "h"@.len() != "cjs"@.len() && "h"@.len() != "py"@.len() && "h"@.len() != "go"@.len() && "h"@.len() != "java"@.len() && "h"@.len() != "kt"@.len() && "h"@.len() != "kts"@.len() && "h"@.len() != "swift"@.len() && "h"@.len() != "cpp"@.len() && "h"@.len() != "cc"@.len() && "h"@.len() != "cxx"@.len() && "h"@.len() != "hpp"@.len() && "h"@.len() != "hh"@.len() && "h"@.len() != "hxx"@.len() && "h"@[0] != "c"@[0]);
    }
    assert(MediaType::from_ext_spec(Some("sql"@)) == MediaType::CodeSql) by {
        lemma_normal_text("sql"@);
        assert("sql"@[0] != "txt"@[0] && "sql"@.len() != "md"@.len() && "sql"@.len() != "markdown"@.len() && "sql"@.len() != "html"@.len() && "sql"@[0] != "htm"@[0] && "sql"@[0] != "xml"@[0] && "sql"@[0] != "csv"@[0] && "sql"@.len() != "toml"@.len() && "sql"@.len() != "yaml"@.len() && "sql"@[0] != "yml"@[0] && "sql"@.len() != "json"@.len() && "sql"@.len() != "rs"@.len() && "sql"@.len() != "cs"@.len() && "sql"@.len() != "ts"@.len() && "sql"@.len() != "js"@.len() && "sql"@[0] != "mjs"@[0] && "sql"@[0] != "cjs"@[0] && "sql"@.len() != "py"@.len() && "sql"@.len() != "go"@.len() && "sql"@.len() != "java"@.len() && "sql"@.len() != "kt"@.len() && "sql"@[0] != "kts"@[0] && "sql"@.len() != "swift"@.len() && "sql"@[0] != "cpp"@[0] && "sql"@.len() != "cc"@.len() && "sql"@[0] != "cxx"@[0] && "sql"@[0] != "hpp"@[0] && "sql"@.len() != "hh"@.len() && "sql"@[0] != "hxx"@[0] && "sql"@.len() != "c"@.len() && "sql"@.len() != "h"@.len());
    }
    assert(MediaType::from_ext_spec(Some("sh"@)) == MediaType::CodeShell) by {
        lemma_normal_text("sh"@);
        assert("sh"@.len() != "txt"@.len() && "sh"@[0] != "md"@[0] && "sh"@.len() != "markdown"@.len() && "sh"@.len() != "html"@.len() && "sh"@.len() != "htm"@.len() && "sh"@.len() != "xml"@.len() && "sh"@.len() != "csv"@.len() && "sh"@.len() != "toml"@.len() && "sh"@.len() != "yaml"@.len() && "sh"@.len() != "yml"@.len() && "sh"@.len() != "json"@.len() && "sh"@[0] != "rs"@[0] && "sh"@[0] != "cs"@[0] && "sh"@[0] != "ts"@[0] && "sh"@[0] != "js"@[0] && "sh"@.len() != "mjs"@.len() && "sh"@.len() != "cjs"@.len() && "sh"@[0] != "py"@[0] && "sh"@[0] != "go"@[0] && "sh"@.len() != "java"@.len() && "sh"@[0] != "kt"@[0] && "sh"@.len() != "kts"@.len() && "sh"@.len() != "swift"@.len() && "sh"@.len() != "cpp"@.len() && "sh"@[0] != "cc"@[0] && "sh"@.len() != "cxx"@.len() && "sh"@.len() != "hpp"@.len() && "sh"@[0] != "hh"@[0] && "sh"@.len() != "hxx"@.len() && "sh"@.len() != "c"@.len() && "sh"@.len() != "h"@.len() && "sh"@.len() != "sql"@.len());
    }
    assert(MediaType::from_ext_spec(Some("bash"@)) == MediaType::CodeShell) by {
        lemma_normal_text("bash"@);
        assert("bash"@.len() != "txt"@.len() && "bash"@.len() != "md"@.len() && "bash"@.len() != "markdown"@.len() && "bash"@[0] != "html"@[0] && "bash"@.len() != "htm"@.len() && "bash"@.len() != "xml"@.len() && "bash"@.len() != "csv"@.len() && "bash"@[0] != "toml"@[0] && "bash"@[0] != "yaml"@[0] && "bash"@.len() != "yml"@.len() && "bash"@[0] != "json"@[0] && "bash"@.len() != "rs"@.len() && "bash"@.len() != "cs"@.len() && "bash"@.len() != "ts"@.len() && "bash"@.len() != "js"@.len() && "bash"@.len() != "mjs"@.len() && "bash"@.len() != "cjs"@.len() && "bash"@.len() != "py"@.len() && "bash"@.len() != "go"@.len() && "bash"@[0] != "java"@[0] && "bash"@.len() != "kt"@.len() && "bash"@.len() != "kts"@.len() && "bash"@.len() != "swift"@.len() && "bash"@.len() != "cpp"@.len() && "bash"@.len() != "cc"@.len() && "bash"@.len() != "cxx"@.len() && "bash"@.len() != "hpp"@.len() && "bash"@.len() != "hh"@.len() && "bash"@.len() != "hxx"@.len() && "bash"@.len() != "c"@.len() && "bash"@.len() != "h"@.len() && "bash"@.len() != "sql"@.len() && "bash"@.len() != "sh"@.len());
    }
    assert(MediaType::from_ext_spec(Some("zsh"@)) == MediaType::CodeShell) by {
        lemma_normal_text("zsh"@);
        assert("zsh"@[0] != "txt"@[0] && "zsh"@.len() != "md"@.len() && "zsh"@.len() != "markdown"@.len() && "zsh"@.len() != "html"@.len() && "zsh"@[0] != "htm"@[0] && "zsh"@[0] != "xml"@[0] && "zsh"@[0] != "csv"@[0] && "zsh"@.len() != "toml"@.len() && "zsh"@.len() != "yaml"@.len() && "zsh"@[0] != "yml"@[0] && "zsh"@.len() != "json"@.len() && "zsh"@.len() != "rs"@.len() && "zsh"@.len() != "cs"@.len() && "zsh"@.len() != "ts"@.len() && "zsh"@.len() != "js"@.len() && "zsh"@[0] != "mjs"@[0] && "zsh"@[0] != "cjs"@[0] && "zsh"@.len() != "py"@.len() && "zsh"@.len() != "go"@.len() && "zsh"@.len() != "java"@.len() && "zsh"@.len() != "kt"@.len() && "zsh"@[0] != "kts"@[0] && "zsh"@.len() != "swift"@.len() && "zsh"@[0] != "cpp"@[0] && "zsh"@.len() != "cc"@.len() && "zsh"@[0] != "cxx"@[0] && "zsh"@[0] != "hpp"@[0] && "zsh"@.len() != "hh"@.len() && "zsh"@[0] != "hxx"@[0] && "zsh"@.len() != "c"@.len() && "zsh"@.len() != "h"@.len() && "zsh"@[0] != "sql"@[0] && "zsh"@.len() != "sh"@.len() && "zsh"@.len() != "bash"@.len());
    }
    assert(MediaType::from_ext_spec(Some("fish"@)) == MediaType::CodeShell) by {
        lemma_normal_text("fish"@);
        assert("fish"@.len() != "txt"@.len() && "fish"@.len() != "md"@.len() && "fish"@.len() != "markdown"@.len() && "fish"@[0] != "html"@[0] && "fish"@.len() != "htm"@.len() && "fish"@.len() != "xml"@.len() && "fish"@.len() != "csv"@.len() && "fish"@[0] != "toml"@[0] && "fish"@[0] != "yaml"@[0] && "fish"@.len() != "yml"@.len() && "fish"@[0] != "json"@[0] && "fish"@.len() != "rs"@.len() && "fish"@.len() != "cs"@.len() && "fish"@.len() != "ts"@.len() && "fish"@.len() != "js"@.len() && "fish"@.len() != "mjs"@.len() && "fish"@.len() != "cjs"@.len() && "fish"@.len() != "py"@.len() && "fish"@.len() != "go"@.len() && "fish"@[0] != "java"@[0] && "fish"@.len() != "kt"@.len() && "fish"@.len() != "kts"@.len() && "fish"@.len() != "swift"@.len() && "fish"@.len() != "cpp"@.len() && "fish"@.len() != "cc"@.len() && "fish"@.len() != "cxx"@.len() && "fish"@.len() != "hpp"@.len() && "fish"@.len() != "hh"@.len() && "fish"@.len() != "hxx"@.len() && "fish"@.len() != "c"@.len() && "fish"@.len() != "h"@.len() && "fish"@.len() != "sql"@.len() && "fish"@.len() != "sh"@.len() && "fish"@[0] != "bash"@[0] && "fish"@.len() != "zsh"@.len());
    }
    assert(MediaType::from_ext_spec(Some("pdf"@)) == MediaType::Pdf) by {
        lemma_normal_text("pdf"@);
        assert("pdf"@[0] != "txt"@[0] && "pdf"@.len() != "md"@.len() && "pdf"@.len() != "markdown"@.len() && "pdf"@.len() != "html"@.len() && "pdf"@[0] != "htm"@[0] && "pdf"@[0] != "xml"@[0] && "pdf"@[0] != "csv"@[0] && "pdf"@.len() != "toml"@.len() && "pdf"@.len() != "yaml"@.len() && "pdf"@[0] != "yml"@[0] && "pdf"@.len() != "json"@.len() && "pdf"@.len() != "rs"@.len() && "pdf"@.len() != "cs"@.len() && "pdf"@.len() != "ts"@.len() && "pdf"@.len() != "js"@.len() && "pdf"@[0] != "mjs"@[0] && "pdf"@[0] != "cjs"@[0] && "pdf"@.len() != "py"@.len() && "pdf"@.len() != "go"@.len() && "pdf"@.len() != "java"@.len() && "pdf"@.len() != "kt"@.len() && "pdf"@[0] != "kts"@[0] && "pdf"@.len() != "swift"@.len() && "pdf"@[0] != "cpp"@[0] && "pdf"@.len() != "cc"@.len() && "pdf"@[0] != "cxx"@[0] && "pdf"@[0] != "hpp"@[0] && "pdf"@.len() != "hh"@.len() && "pdf"@[0] != "hxx"@[0] && "pdf"@.len() != "c"@.len() && "pdf"@.len() != "h"@.len() && "pdf"@[0] != "sql"@[0] && "pdf"@.len() != "sh"@.len() && "pdf"@.len() != "bash"@.len() && "pdf"@[0] != "zsh"@[0] && "pdf"@.len() != "fish"@.len());
    }
    assert(MediaType::from_ext_spec(Some("docx"@)) == MediaType::Docx) by {
        lemma_normal_text("docx"@);
        assert("docx"@.len() != "txt"@.len() && "docx"@.len() != "md"@.len() && "docx"@.len() != "markdown"@.len() && "docx"@[0] != "html"@[0] && "docx"@.len() != "htm"@.len() && "docx"@.len() != "xml"@.len() && "docx"@.len() != "csv"@.len() && "docx"@[0] != "toml"@[0] && "docx"@[0] != "yaml"@[0] && "docx"@.len() != "yml"@.len() && "docx"@[0] != "json"@[0] && "docx"@.len() != "rs"@.len() && "docx"@.len() != "cs"@.len() && "docx"@.len() != "ts"@.len() && "docx"@.len() != "js"@.len() && "docx"@.len() != "mjs"@.len() && "docx"@.len() != "cjs"@.len() && "docx"@.len() != "py"@.len() && "docx"@.len() != "go"@.len() && "docx"@[0] != "java"@[0] && "docx"@.len() != "kt"@.len() && "docx"@.len() != "kts"@.len() && "docx"@.len() != "swift"@.len() && "docx"@.len() != "cpp"@.len() && "docx"@.len() != "cc"@.len() && "docx"@.len() != "cxx"@.len() && "docx"@.len() != "hpp"@.len() && "docx"@.len() != "hh"@.len() && "docx"@.len() != "hxx"@.len() && "docx"@.len() != "c"@.len() && "docx"@.len() != "h"@.len() && "docx"@.len() != "sql"@.len() && "docx"@.len() != "sh"@.len() && "docx"@[0] != "bash"@[0] && "docx"@.len() != "zsh"@.len() && "docx"@[0] != "fish"@[0] && "docx"@.len() != "pdf"@.len());
    }
    assert(MediaType::from_ext_spec(Some("pptx"@)) == MediaType::Pptx) by {
        lemma_normal_text("pptx"@);
        assert("pptx"@.len() != "txt"@.len() && "pptx"@.len() != "md"@.len() && "pptx"@.len() != "markdown"@.len() && "pptx"@[0] != "html"@[0] && "pptx"@.len() != "htm"@.len() && "pptx"@.len() != "xml"@.len() && "pptx"@.len() != "csv"@.len() && "pptx"@[0] != "toml"@[0] && "pptx"@[0] != "yaml"@[0] && "pptx"@.len() != "yml"@.len() && "pptx"@[0] != "json"@[0] && "pptx"@.len() != "rs"@.len() && "pptx"@.len() != "cs"@.len() && "pptx"@.len() != "ts"@.len() && "pptx"@.len() != "js"@.len() && "pptx"@.len() != "mjs"@.len() && "pptx"@.len() != "cjs"@.len() && "pptx"@.len() != "py"@.len() && "pptx"@.len() != "go"@.len() && "pptx"@[0] != "java"@[0] && "pptx"@.len() != "kt"@.len() && "pptx"@.len() != "kts"@.len() && "pptx"@.len() != "swift"@.len() && "pptx"@.len() != "cpp"@.len() && "pptx"@.len() != "cc"@.len() && "pptx"@.len() != "cxx"@.len() && "pptx"@.len() != "hpp"@.len() && "pptx"@.len() != "hh"@.len() && "pptx"@.len() != "hxx"@.len() && "pptx"@.len() != "c"@.len() && "pptx"@.len() != "h"@.len() && "pptx"@.len() != "sql"@.len() && "pptx"@.len() != "sh"@.len() && "pptx"@[0] != "bash"@[0] && "pptx"@.len() != "zsh"@.len() && "pptx"@[0] != "fish"@[0] && "pptx"@.len() != "pdf"@.len() && "pptx"@[0] != "docx"@[0]);
    }
    assert(MediaType::from_ext_spec(Some("xlsx"@)) == MediaType::Xlsx) by {
        lemma_normal_text("xlsx"@);
        assert("xlsx"@.len() != "txt"@.len() && "xlsx"@.len() != "md"@.len() && "xlsx"@.len() != "markdown"@.len() && "xlsx"@[0] != "html"@[0] && "xlsx"@.len() != "htm"@.len() && "xlsx"@.len() != "xml"@.len() && "xlsx"@.len() != "csv"@.len() && "xlsx"@[0] != "toml"@[0] && "xlsx"@[0] != "yaml"@[0] && "xlsx"@.len() != "yml"@.len() && "xlsx"@[0] != "json"@[0] && "xlsx"@.len() != "rs"@.len() && "xlsx"@.len() != "cs"@.len() && "xlsx"@.len() != "ts"@.len() && "xlsx"@.len() != "js"@.len() && "xlsx"@.len() != "mjs"@.len() && "xlsx"@.len() != "cjs"@.len() && "xlsx"@.len() != "py"@.len() && "xlsx"@.len() != "go"@.len() && "xlsx"@[0] != "java"@[0] && "xlsx"@.len() != "kt"@.len() && "xlsx"@.len() != "kts"@.len() && "xlsx"@.len() != "swift"@.len() && "xlsx"@.len() != "cpp"@.len() && "xlsx"@.len() != "cc"@.len() && "xlsx"@.len() != "cxx"@.len() && "xlsx"@.len() != "hpp"@.len() && "xlsx"@.len() != "hh"@.len() && "xlsx"@.len() != "hxx"@.len() && "xlsx"@.len() != "c"@.len() && "xlsx"@.len() != "h"@.len() && "xlsx"@.len() != "sql"@.len() && "xlsx"@.len() != "sh"@.len() && "xlsx"@[0] != "bash"@[0] && "xlsx"@.len() != "zsh"@.len() && "xlsx"@[0] != "fish"@[0] && "xlsx"@.len() != "pdf"@.len() && "xlsx"@[0] != "docx"@[0] && "xlsx"@[0] != "pptx"@[0]);
    }
    assert(MediaType::from_ext_spec(Some("parquet"@)) == MediaType::Parquet) by {
        lemma_normal_text("parquet"@);
        assert("parquet"@.len() != "txt"@.len() && "parquet"@.len() != "md"@.len() && "parquet"@.len() != "markdown"@.len() && "parquet"@.len() != "html"@.len() && "parquet"@.len() != "htm"@.len() && "parquet"@.len() != "xml"@.len() && "parquet"@.len() != "csv"@.len() && "parquet"@.len() != "toml"@.len() && "parquet"@.len() != "yaml"@.len() && "parquet"@.len() != "yml"@.len() && "parquet"@.len() != "json"@.len() && "parquet"@.len() != "rs"@.len() && "parquet"@.len() != "cs"@.len() && "parquet"@.len() != "ts"@.len() && "parquet"@.len() != "js"@.len() && "parquet"@.len() != "mjs"@.len() && "parquet"@.len() != "cjs"@.len() && "parquet"@.len() != "py"@.len() && "parquet"@.len() != "go"@.len() && "parquet"@.len() != "java"@.len() && "parquet"@.len() != "kt"@.len() && "parquet"@.len() != "kts"@.len() && "parquet"@.len() != "swift"@.len() && "parquet"@.len() != "cpp"@.len() && "parquet"@.len() != "cc"@.len() && "parquet"@.len() != "cxx"@.len() && "parquet"@.len() != "hpp"@.len() && "parquet"@.len() != "hh"@.len() && "parquet"@.len() != "hxx"@.len() && "parquet"@.len() != "c"@.len() && "parquet"@.len() != "h"@.len() && "parquet"@.len() != "sql"@.len() && "parquet"@.len() != "sh"@.len() && "parquet"@.len() != "bash"@.len() && "parquet"@.len() != "zsh"@.len() && "parquet"@.len() != "fish"@.len() && "parquet"@.len() != "pdf"@.len() && "parquet"@.len() != "docx"@.len() && "parquet"@.len() != "pptx"@.len() && "parquet"@.len() != "xlsx"@.len());
    }
    assert(MediaType::from_ext_spec(Some("avro"@)) == MediaType::Avro) by {
        lemma_normal_text("avro"@);
        assert("avro"@.len() != "txt"@.len() && "avro"@.len() != "md"@.len() && "avro"@.len() != "markdown"@.len() && "avro"@[0] != "html"@[0] && "avro"@.len() != "htm"@.len() && "avro"@.len() != "xml"@.len() && "avro"@.len() != "csv"@.len() && "avro"@[0] != "toml"@[0] && "avro"@[0] != "yaml"@[0] && "avro"@.len() != "yml"@.len() && "avro"@[0] != "json"@[0] && "avro"@.len() != "rs"@.len() && "avro"@.len() != "cs"@.len() && "avro"@.len() != "ts"@.len() && "avro"@.len() != "js"@.len() && "avro"@.len() != "mjs"@.len() && "avro"@.len() != "cjs"@.len() && "avro"@.len() != "py"@.len() && "avro"@.len() != "go"@.len() && "avro"@[0] != "java"@[0] && "avro"@.len() != "kt"@.len() && "avro"@.len() != "kts"@.len() && "avro"@.len() != "swift"@.len() && "avro"@.len() != "cpp"@.len() && "avro"@.len() != "cc"@.len() && "avro"@.len() != "cxx"@.len() && "avro"@.len() != "hpp"@.len() && "avro"@.len() != "hh"@.len() && "avro"@.len() != "hxx"@.len() && "avro"@.len() != "c"@.len() && "avro"@.len() != "h"@.len() && "avro"@.len() != "sql"@.len() && "avro"@.len() != "sh"@.len() && "avro"@[0] != "bash"@[0] && "avro"@.len() != "zsh"@.len() && "avro"@[0] != "fish"@[0] && "avro"@.len() != "pdf"@.len() && "avro"@[0] != "docx"@[0] && "avro"@[0] != "pptx"@[0] && "avro"@[0] != "xlsx"@[0] && "avro"@.len() != "parquet"@.len());
    }
    assert(MediaType::from_ext_spec(Some("png"@)) == MediaType::ImagePng) by {
        lemma_normal_text("png"@);
        assert("png"@[0] != "txt"@[0] && "png"@.len() != "md"@.len() && "png"@.len() != "markdown"@.len() && "png"@.len() != "html"@.len() && "png"@[0] != "htm"@[0] && "png"@[0] != "xml"@[0] && "png"@[0] != "csv"@[0] && "png"@.len() != "toml"@.len() && "png"@.len() != "yaml"@.len() && "png"@[0] != "yml"@[0] && "png"@.len() != "json"@.len() && "png"@.len() != "rs"@.len() && "png"@.len() != "cs"@.len() && "png"@.len() != "ts"@.len() && "png"@.len() != "js"@.len() && "png"@[0] != "mjs"@[0] && "png"@[0] != "cjs"@[0] && "png"@.len() != "py"@.len() && "png"@.len() != "go"@.len() && "png"@.len() != "java"@.len() && "png"@.len() != "kt"@.len() && "png"@[0] != "kts"@[0] && "png"@.len() != "swift"@.len() && "png"@[0] != "cpp"@[0] && "png"@.len() != "cc"@.len() && "png"@[0] != "cxx"@[0] && "png"@[0] != "hpp"@[0] && "png"@.len() != "hh"@.len() && "png"@[0] != "hxx"@[0] && "png"@.len() != "c"@.len() && "png"@.len() != "h"@.len() && "png"@[0] != "sql"@[0] && "png"@.len() != "sh"@.len() && "png"@.len() != "bash"@.len() && "png"@[0] != "zsh"@[0] && "png"@.len() != "fish"@.len() && "png"@[1] != "pdf"@[1] && "png"@.len() != "docx"@.len() && "png"@.len() != "pptx"@.len() && "png"@.len() != "xlsx"@.len() && "png"@.len() != "parquet"@.len() && "png"@.len() != "avro"@.len());
    }
    assert(MediaType::from_ext_spec(Some("jpg"@)) == MediaType::ImageJpeg) by {
        lemma_normal_text("jpg"@);
        assert("jpg"@[0] != "txt"@[0] && "jpg"@.len() != "md"@.len() && "jpg"@.len() != "markdown"@.len() && "jpg"@.len() != "html"@.len() && "jpg"@[0] != "htm"@[0] && "jpg"@[0] != "xml"@[0] && "jpg"@[0] != "csv"@[0] && "jpg"@.len() != "toml"@.len() && "jpg"@.len() != "yaml"@.len() && "jpg"@[0] != "yml"@[0] && "jpg"@.len() != "json"@.len() && "jpg"@.len() != "rs"@.len() && "jpg"@.len() != "cs"@.len() && "jpg"@.len() != "ts"@.len() && "jpg"@.len() != "js"@.len() && "jpg"@[0] != "mjs"@[0] && "jpg"@[0] != "cjs"@[0] && "jpg"@.len() != "py"@.len() && "jpg"@.len() != "go"@.len() && "jpg"@.len() != "java"@.len() && "jpg"@.len() != "kt"@.len() && "jpg"@[0] != "kts"@[0] && "jpg"@.len() != "swift"@.len() && "jpg"@[0] != "cpp"@[0] && "jpg"@.len() != "cc"@.len() && "jpg"@[0] != "cxx"@[0] && "jpg"@[0] != "hpp"@[0] && "jpg"@.len() != "hh"@.len() && "jpg"@[0] != "hxx"@[0] && "jpg"@.len() != "c"@.len() && "jpg"@.len() != "h"@.len() && "jpg"@[0] != "sql"@[0] && "jpg"@.len() != "sh"@.len() && "jpg"@.len() != "bash"@.len() && "jpg"@[0] != "zsh"@[0] && "jpg"@.len() != "fish"@.len() && "jpg"@[0] != "pdf"@[0] && "jpg"@.len() != "docx"@.len() && "jpg"@.len() != "pptx"@.len() && "jpg"@.len() != "xlsx"@.len() && "jpg"@.len() != "parquet"@.len() && "jpg"@.len() != "avro"@.len() && "jpg"@[0] != "png"@[0]);
    }
    assert(MediaType::from_ext_spec(Some("jpeg"@)) == MediaType::ImageJpeg) by {
        lemma_normal_text("jpeg"@);
        assert("jpeg"@.len() != "txt"@.len() && "jpeg"@.len() != "md"@.len() && "jpeg"@.len() != "markdown"@.len() && "jpeg"@[0] != "html"@[0] && "jpeg"@.len() != "htm"@.len() && "jpeg"@.len() != "xml"@.len() && "jpeg"@.len() != "csv"@.len() && "jpeg"@[0] != "toml"@[0] && "jpeg"@[0] != "yaml"@[0] && "jpeg"@.len() != "yml"@.len() && "jpeg"@[1] != "json"@[1] && "jpeg"@.len() != "rs"@.len() && "jpeg"@.len() != "cs"@.len() && "jpeg"@.len() != "ts"@.len() && "jpeg"@.len() != "js"@.len() && "jpeg"@.len() != "mjs"@.len() && "jpeg"@.len() != "cjs"@.len() && "jpeg"@.len() != "py"@.len() && "jpeg"@.len() != "go"@.len() && "jpeg"@[1] != "java"@[1] && "jpeg"@.len() != "kt"@.len() && "jpeg"@.len() != "kts"@.len() && "jpeg"@.len() != "swift"@.len() && "jpeg"@.len() != "cpp"@.len() && "jpeg"@.len() != "cc"@.len() && "jpeg"@.len() != "cxx"@.len() && "jpeg"@.len() != "hpp"@.len() && "jpeg"@.len() != "hh"@.len() && "jpeg"@.len() != "hxx"@.len() && "jpeg"@.len() != "c"@.len() && "jpeg"@.len() != "h"@.len() && "jpeg"@.len() != "sql"@.len() && "jpeg"@.len() != "sh"@.len() && "jpeg"@[0] != "bash"@[0] && "jpeg"@.len() != "zsh"@.len() && "jpeg"@[0] != "fish"@[0] && "jpeg"@.len() != "pdf"@.len() && "jpeg"@[0] != "docx"@[0] && "jpeg"@[0] != "pptx"@[0] && "jpeg"@[0] != "xlsx"@[0] && "jpeg"@.len() != "parquet"@.len() && "jpeg"@[0] != "avro"@[0] && "jpeg"@.len() != "png"@.len() && "jpeg"@.len() != "jpg"@.len());
    }
}

proof fn lemma_extension_table_3()
    ensures
        MediaType::from_ext_spec(Some("webp"@)) == MediaType::ImageWebp,
        MediaType::from_ext_spec(Some("gif"@)) == MediaType::ImageGif,
        MediaType::from_ext_spec(Some("svg"@)) == MediaType::ImageSvg,
        MediaType::from_ext_spec(Some("mp3"@)) == MediaType::AudioMp3,
        MediaType::from_ext_spec(Some("wav"@)) == MediaType::AudioWav,
        MediaType::from_ext_spec(Some("m4a"@)) == MediaType::AudioM4a,
        MediaType::from_ext_spec(Some("mp4"@)) == MediaType::VideoMp4,
        MediaType::from_ext_spec(Some("webm"@)) == MediaType::VideoWebm,
        MediaType::from_ext_spec(Some("zip"@)) == MediaType::ArchiveZip,
        MediaType::from_ext_spec(Some("tar"@)) == MediaType::ArchiveTar,
        MediaType::from_ext_spec(Some("gz"@)) == MediaType::ArchiveGzip,
        MediaType::from_ext_spec(Some("gzip"@)) == MediaType::ArchiveGzip,
{
    reveal_strlit("avro");
    reveal_strlit("bash");
    reveal_strlit("c");
    reveal_strlit("cc");
    reveal_strlit("cjs");
    reveal_strlit("cpp");
    reveal_strlit("cs");
    reveal_strlit("csv");
    reveal_strlit("cxx");
    reveal_strlit("docx");
    reveal_strlit("fish");
    reveal_strlit("gif");
    reveal_strlit("go");
    reveal_strlit("gz");
    reveal_strlit("gzip");
    reveal_strlit("h");
    reveal_strlit("hh");
    reveal_strlit("hpp");
    reveal_strlit("htm");
    reveal_strlit("html");
    reveal_strlit("hxx");
    reveal_strlit("java");
    reveal_strlit("jpeg");
    reveal_strlit("jpg");
    reveal_strlit("js");
    reveal_strlit("json");
    reveal_strlit("kt");
    reveal_strlit("kts");
    reveal_strlit("m4a");
    reveal_strlit("markdown");
    reveal_strlit("md");
    reveal_strlit("mjs");
    reveal_strlit("mp3");
    reveal_strlit("mp4");
    reveal_strlit("parquet");
    reveal_strlit("pdf");
    reveal_strlit("png");
    reveal_strlit("pptx");
    reveal_strlit("py");
    reveal_strlit("rs");
    reveal_strlit("sh");
    reveal_strlit("sql");
    reveal_strlit("svg");
    reveal_strlit("swift");
    reveal_strlit("tar");
    reveal_strlit("toml");
    reveal_strlit("ts");
    reveal_strlit("txt");
    reveal_strlit("wav");
    reveal_strlit("webm");
    reveal_strlit("webp");
    reveal_strlit("xlsx");
    reveal_strlit("xml");
    reveal_strlit("yaml");
    reveal_strlit("yml");
    reveal_strlit("zip");
    reveal_strlit("zsh");
    assert(MediaType::from_ext_spec(Some("webp"@)) == MediaType::ImageWebp) by {
        lemma_normal_text("webp"@);
        assert("webp"@.len() != "txt"@.len() && "webp"@.len() != "md"@.len() && "webp"@.len() != "markdown"@.len() && "webp"@[0] != "html"@[0] && "webp"@.len() != "htm"@.len() && "webp"@.len() != "xml"@.len() && "webp"@.len() != "csv"@.len() && "webp"@[0] != "toml"@[0] && "webp"@[0] != "yaml"@[0] && "webp"@.len() != "yml"@.len() && "webp"@[0] != "json"@[0] && "webp"@.len() != "rs"@.len() && "webp"@.len() != "cs"@.len() && "webp"@.len() != "ts"@.len() && "webp"@.len() != "js"@.len() && "webp"@.len() != "mjs"@.len() && "webp"@.len() != "cjs"@.len() && "webp"@.len() != "py"@.len() && "webp"@.len() != "go"@.len() && "webp"@[0] != "java"@[0] && "webp"@.len() != "kt"@.len() && "webp"@.len() != "kts"@.len() && "webp"@.len() != "swift"@.len() && "webp"@.len() != "cpp"@.len() && "webp"@.len() != "cc"@.len() && "webp"@.len() != "cxx"@.len() && "webp"@.len() != "hpp"@.len() && "webp"@.len() != "hh"@.len() && "webp"@.len() != "hxx"@.len() && "webp"@.len() != "c"@.len() && "webp"@.len() != "h"@.len() && "webp"@.len() != "sql"@.len() && "webp"@.len() != "sh"@.len() && "webp"@[0] != "bash"@[0] && "webp"@.len() != "zsh"@.len() && "webp"@[0] != "fish"@[0] && "webp"@.len() != "pdf"@.len() && "webp"@[0] != "docx"@[0] && "webp"@[0] != "pptx"@[0] && "webp"@[0] != "xlsx"@[0] && "webp"@.len() != "parquet"@.len() && "webp"@[0] != "avro"@[0] && "webp"@.len() != "png"@.len() && "webp"@.len() != "jpg"@.len() && "webp"@[0] != "jpeg"@[0]);
    }
    assert(MediaType::from_ext_spec(Some("gif"@)) == MediaType::ImageGif) by {
        lemma_normal_text("gif"@);
        assert("gif"@[0] != "txt"@[0] && "gif"@.len() != "md"@.len() && "gif"@.len() != "markdown"@.len() && "gif"@.len() != "html"@.len() && "gif"@[0] != "htm"@[0] && "gif"@[0] != "xml"@[0] && "gif"@[0] != "csv"@[0] && "gif"@.len() != "toml"@.len() && "gif"@.len() != "yaml"@.len() && "gif"@[0] != "yml"@[0] && "gif"@.len() != "json"@.len() && "gif"@.len() != "rs"@.len() && "gif"@.len() != "cs"@.len() && "gif"@.len() != "ts"@.len() && "gif"@.len() != "js"@.len() && "gif"@[0] != "mjs"@[0] && "gif"@[0] != "cjs"@[0] && "gif"@.len() != "py"@.len() && "gif"@.len() != "go"@.len() && "gif"@.len() != "java"@.len() && "gif"@.len() != "kt"@.len() && "gif"@[0] != "kts"@[0] && "gif"@.len() != "swift"@.len() && "gif"@[0] != "cpp"@[0] && "gif"@.len() != "cc"@.len() && "gif"@[0] != "cxx"@[0] && "gif"@[0] != "hpp"@[0] && "gif"@.len() != "hh"@.len() && "gif"@[0] != "hxx"@[0] && "gif"@.len() != "c"@.len() && "gif"@.len() != "h"@.len() && "gif"@[0] != "sql"@[0] && "gif"@.len() != "sh"@.len() && "gif"@.len() != "bash"@.len() && "gif"@[0] != "zsh"@[0] && "gif"@.len() != "fish"@.len() && "gif"@[0] != "pdf"@[0] && "gif"@.len() != "docx"@.len() && "gif"@.len() != "pptx"@.len() && "gif"@.len() != "xlsx"@.len() && "gif"@.len() != "parquet"@.len() && "gif"@.len() != "avro"@.len() && "gif"@[0] != "png"@[0] && "gif"@[0] != "jpg"@[0] && "gif"@.len() != "jpeg"@.len() && "gif"@.len() != "webp"@.len());
    }
    assert(MediaType::from_ext_spec(Some("svg"@)) == MediaType::ImageSvg) by {
        lemma_normal_text("svg"@);
        assert("svg"@[0] != "txt"@[0] && "svg"@.len() != "md"@.len() && "svg"@.len() != "markdown"@.len() && "svg"@.len() != "html"@.len() && "svg"@[0] != "htm"@[0] && "svg"@[0] != "xml"@[0] && "svg"@[0] != "csv"@[0] && "svg"@.len() != "toml"@.len() && "svg"@.len() != "yaml"@.len() && "svg"@[0] != "yml"@[0] && "svg"@.len() != "json"@.len() && "svg"@.len() != "rs"@.len() && "svg"@.len() != "cs"@.len() && "svg"@.len() != "ts"@.len() && "svg"@.len() != "js"@.len() && "svg"@[0] != "mjs"@[0] && "svg"@[0] != "cjs"@[0] && "svg"@.len() != "py"@.len() && "svg"@.len() != "go"@.len() && "svg"@.len() != "java"@.len() && "svg"@.len() != "kt"@.len() && "svg"@[0] != "kts"@[0] && "svg"@.len() != "swift"@.len() && "svg"@[0] != "cpp"@[0] && "svg"@.len() != "cc"@.len() && "svg"@[0] != "cxx"@[0] && "svg"@[0] != "hpp"@[0] && "svg"@.len() != "hh"@.len() && "svg"@[0] != "hxx"@[0] && "svg"@.len() != "c"@.len() && "svg"@.len() != "h"@.len() && "svg"@[1] != "sql"@[1] && "svg"@.len() != "sh"@.len() && "svg"@.len() != "bash"@.len() && "svg"@[0] != "zsh"@[0] && "svg"@.len() != "fish"@.len() && "svg"@[0] != "pdf"@[0] && "svg"@.len() != "docx"@.len() && "svg"@.len() != "pptx"@.len() && "svg"@.len() != "xlsx"@.len() && "svg"@.len() != "parquet"@.len() && "svg"@.len() != "avro"@.len() && "svg"@[0] != "png"@[0] && "svg"@[0] != "jpg"@[0] && "svg"@.len() != "jpeg"@.len() && "svg"@.len() != "webp"@.len() && "svg"@[0] != "gif"@[0]);
    }
    assert(MediaType::from_ext_spec(Some("mp3"@)) == MediaType::AudioMp3) by {
        lemma_normal_text("mp3"@);
        assert("mp3"@[0] != "txt"@[0] && "mp3"@.len() != "md"@.len() && "mp3"@.len() != "markdown"@.len() && "mp3"@.len() != "html"@.len() && "mp3"@[0] != "htm"@[0] && "mp3"@[0] != "xml"@[0] && "mp3"@[0] != "csv"@[0] && "mp3"@.len() != "toml"@.len() && "mp3"@.len() != "yaml"@.len() && "mp3"@[0] != "yml"@[0] && "mp3"@.len() != "json"@.len() && "mp3"@.len() != "rs"@.len() && "mp3"@.len() != "cs"@.len() && "mp3"@.len() != "ts"@.len() && "mp3"@.len() != "js"@.len() && "mp3"@[1] != "mjs"@[1] && "mp3"@[0] != "cjs"@[0] && "mp3"@.len() != "py"@.len() && "mp3"@.len() != "go"@.len() && "mp3"@.len() != "java"@.len() && "mp3"@.len() != "kt"@.len() && "mp3"@[0] != "kts"@[0] && "mp3"@.len() != "swift"@.len() && "mp3"@[0] != "cpp"@[0] && "mp3"@.len() != "cc"@.len() && "mp3"@[0] != "cxx"@[0] && "mp3"@[0] != "hpp"@[0] && "mp3"@.len() != "hh"@.len() && "mp3"@[0] != "hxx"@[0] && "mp3"@.len() != "c"@.len() && "mp3"@.len() != "h"@.len() && "mp3"@[0] != "sql"@[0] && "mp3"@.len() != "sh"@.len() && "mp3"@.len() != "bash"@.len() && "mp3"@[0] != "zsh"@[0] && "mp3"@.len() != "fish"@.len() && "mp3"@[0] != "pdf"@[0] && "mp3"@.len() != "docx"@.len() && "mp3"@.len() != "pptx"@.len() && "mp3"@.len() != "xlsx"@.len() && "mp3"@.len() != "parquet"@.len() && "mp3"@.len() != "avro"@.len() && "mp3"@[0] != "png"@[0] && "mp3"@[0] != "jpg"@[0] && "mp3"@.len() != "jpeg"@.len() && "mp3"@.len() != "webp"@.len() && "mp3"@[0] != "gif"@[0] && "mp3"@[0] != "svg"@[0]);
    }
    assert(MediaType::from_ext_spec(Some("wav"@)) == MediaType::AudioWav) by {
        lemma_normal_text("wav"@);
        assert("wav"@[0] != "txt"@[0] && "wav"@.len() != "md"@.len() && "wav"@.len() != "markdown"@.len() && "wav"@.len() != "html"@.len() && "wav"@[0] != "htm"@[0] && "wav"@[0] != "xml"@[0] && "wav"@[0] != "csv"@[0] && "wav"@.len() != "toml"@.len() && "wav"@.len() != "yaml"@.len() && "wav"@[0] != "yml"@[0] && "wav"@.len() != "json"@.len() && "wav"@.len() != "rs"@.len() && "wav"@.len() != "cs"@.len() && "wav"@.len() != "ts"@.len() && "wav"@.len() != "js"@.len() && "wav"@[0] != "mjs"@[0] && "wav"@[0] != "cjs"@[0] && "wav"@.len() != "py"@.len() && "wav"@.len() != "go"@.len() && "wav"@.len() != "java"@.len() && "wav"@.len() != "kt"@.len() && "wav"@[0] != "kts"@[0] && "wav"@.len() != "swift"@.len() && "wav"@[0] != "cpp"@[0] && "wav"@.len() != "cc"@.len() && "wav"@[0] != "cxx"@[0] && "wav"@[0] != "hpp"@[0] && "wav"@.len() != "hh"@.len() && "wav"@[0] != "hxx"@[0] && "wav"@.len() != "c"@.len() && "wav"@.len() != "h"@.len() && "wav"@[0] != "sql"@[0] && "wav"@.len() != "sh"@.len() && "wav"@.len() != "bash"@.len() && "wav"@[0] != "zsh"@[0] && "wav"@.len() != "fish"@.len() && "wav"@[0] != "pdf"@[0] && "wav"@.len() != "docx"@.len() && "wav"@.len() != "pptx"@.len() && "wav"@.len() != "xlsx"@.len() && "wav"@.len() != "parquet"@.len() && "wav"@.len() != "avro"@.len() && "wav"@[0] != "png"@[0] && "wav"@[0] != "jpg"@[0] && "wav"@.len() != "jpeg"@.len() && "wav"@.len() != "webp"@.len() && "wav"@[0] != "gif"@[0] && "wav"@[0] != "svg"@[0] && "wav"@[0] != "mp3"@[0]);
    }
    assert(MediaType::from_ext_spec(Some("m4a"@)) == MediaType::AudioM4a) by {
        lemma_normal_text("m4a"@);
        assert("m4a"@[0] != "txt"@[0] && "m4a"@.len() != "md"@.len() && "m4a"@.len() != "markdown"@.len() && "m4a"@.len() != "html"@.len() && "m4a"@[0] != "htm"@[0] && "m4a"@[0] != "xml"@[0] && "m4a"@[0] != "csv"@[0] && "m4a"@.len() != "toml"@.len() && "m4a"@.len() != "yaml"@.len() && "m4a"@[0] != "yml"@[0] && "m4a"@.len() != "json"@.len() && "m4a"@.len() != "rs"@.len() && "m4a"@.len() != "cs"@.len() && "m4a"@.len() != "ts"@.len() && "m4a"@.len() != "js"@.len() && "m4a"@[1] != "mjs"@[1] && "m4a"@[0] != "cjs"@[0] && "m4a"@.len() != "py"@.len() && "m4a"@.len() != "go"@.len() && "m4a"@.len() != "java"@.len() && "m4a"@.len() != "kt"@.len() && "m4a"@[0] != "kts"@[0] && "m4a"@.len() != "swift"@.len() && "m4a"@[0] != "cpp"@[0] && "m4a"@.len() != "cc"@.len() && "m4a"@[0] != "cxx"@[0] && "m4a"@[0] != "hpp"@[0] && "m4a"@.len() != "hh"@.len() && "m4a"@[0] != "hxx"@[0] && "m4a"@.len() != "c"@.len() && "m4a"@.len() != "h"@.len() && "m4a"@[0] != "sql"@[0] && "m4a"@.len() != "sh"@.len() && "m4a"@.len() != "bash"@.len() && "m4a"@[0] != "zsh"@[0] && "m4a"@.len() != "fish"@.len() && "m4a"@[0] != "pdf"@[0] && "m4a"@.len() != "docx"@.len() && "m4a"@.len() != "pptx"@.len() && "m4a"@.len() != "xlsx"@.len() && "m4a"@.len() != "parquet"@.len() && "m4a"@.len() != "avro"@.len() && "m4a"@[0] != "png"@[0] && "m4a"@[0] != "jpg"@[0] && "m4a"@.len() != "jpeg"@.len() && "m4a"@.len() != "webp"@.len() && "m4a"@[0] != "gif"@[0] && "m4a"@[0] != "svg"@[0] && "m4a"@[1] != "mp3"@[1] && "m4a"@[0] != "wav"@[0]);
    }
    assert(MediaType::from_ext_spec(Some("mp4"@)) == MediaType::VideoMp4) by {
        lemma_normal_text("mp4"@);
        assert("mp4"@[0] != "txt"@[0] && "mp4"@.len() != "md"@.len() && "mp4"@.len() != "markdown"@.len() && "mp4"@.len() != "html"@.len() && "mp4"@[0] != "htm"@[0] && "mp4"@[0] != "xml"@[0] && "mp4"@[0] != "csv"@[0] && "mp4"@.len() != "toml"@.len() && "mp4"@.len() != "yaml"@.len() && "mp4"@[0] != "yml"@[0] && "mp4"@.len() != "json"@.len() && "mp4"@.len() != "rs"@.len() && "mp4"@.len() != "cs"@.len() && "mp4"@.len() != "ts"@.len() && "mp4"@.len() != "js"@.len() && "mp4"@[1] != "mjs"@[1] && "mp4"@[0] != "cjs"@[0] && "mp4"@.len() != "py"@.len() && "mp4"@.len() != "go"@.len() && "mp4"@.len() != "java"@.len() && "mp4"@.len() != "kt"@.len() && "mp4"@[0] != "kts"@[0] && "mp4"@.len() != "swift"@.len() && "mp4"@[0] != "cpp"@[0] && "mp4"@.len() != "cc"@.len() && "mp4"@[0] != "cxx"@[0] && "mp4"@[0] != "hpp"@[0] && "mp4"@.len() != "hh"@.len() && "mp4"@[0] != "hxx"@[0] && "mp4"@.len() != "c"@.len() && "mp4"@.len() != "h"@.len() && "mp4"@[0] != "sql"@[0] && "mp4"@.len() != "sh"@.len() && "mp4"@.len() != "bash"@.len() && "mp4"@[0] != "zsh"@[0] && "mp4"@.len() != "fish"@.len() && "mp4"@[0] != "pdf"@[0] && "mp4"@.len() != "docx"@.len() && "mp4"@.len() != "pptx"@.len() && "mp4"@.len() != "xlsx"@.len() && "mp4"@.len() != "parquet"@.len() && "mp4"@.len() != "avro"@.len() && "mp4"@[0] != "png"@[0] && "mp4"@[0] != "jpg"@[0] && "mp4"@.len() != "jpeg"@.len() && "mp4"@.len() != "webp"@.len() && "mp4"@[0] != "gif"@[0] && "mp4"@[0] != "svg"@[0] && "mp4"@[2] != "mp3"@[2] && "mp4"@[0] != "wav"@[0] && "mp4"@[1] != "m4a"@[1]);
    }
    assert(MediaType::from_ext_spec(Some("webm"@)) == MediaType::VideoWebm) by {
        lemma_normal_text("webm"@);
        assert("webm"@.len() != "txt"@.len() && "webm"@.len() != "md"@.len() && "webm"@.len() != "markdown"@.len() && "webm"@[0] != "html"@[0] && "webm"@.len() != "htm"@.len() && "webm"@.len() != "xml"@.len() && "webm"@.len() != "csv"@.len() && "webm"@[0] != "toml"@[0] && "webm"@[0] != "yaml"@[0] && "webm"@.len() != "yml"@.len() && "webm"@[0] != "json"@[0] && "webm"@.len() != "rs"@.len() && "webm"@.len() != "cs"@.len() && "webm"@.len() != "ts"@.len() && "webm"@.len() != "js"@.len() && "webm"@.len() != "mjs"@.len() && "webm"@.len() != "cjs"@.len() && "webm"@.len() != "py"@.len() && "webm"@.len() != "go"@.len() && "webm"@[0] != "java"@[0] && "webm"@.len() != "kt"@.len() && "webm"@.len() != "kts"@.len() && "webm"@.len() != "swift"@.len() && "webm"@.len() != "cpp"@.len() && "webm"@.len() != "cc"@.len() && "webm"@.len() != "cxx"@.len() && "webm"@.len() != "hpp"@.len() && "webm"@.len() != "hh"@.len() && "webm"@.len() != "hxx"@.len() && "webm"@.len() != "c"@.len() && "webm"@.len() != "h"@.len() && "webm"@.len() != "sql"@.len() && "webm"@.len() != "sh"@.len() && "webm"@[0] != "bash"@[0] && "webm"@.len() != "zsh"@.len() && "webm"@[0] != "fish"@[0] && "webm"@.len() != "pdf"@.len() && "webm"@[0] != "docx"@[0] && "webm"@[0] != "pptx"@[0] && "webm"@[0] != "xlsx"@[0] && "webm"@.len() != "parquet"@.len() && "webm"@[0] != "avro"@[0] && "webm"@.len() != "png"@.len() && "webm"@.len() != "jpg"@.len() && "webm"@[0] != "jpeg"@[0] && "webm"@[3] != "webp"@[3] && "webm"@.len() != "gif"@.len() && "webm"@.len() != "svg"@.len() && "webm"@.len() != "mp3"@.len() && "webm"@.len() != "wav"@.len() && "webm"@.len() != "m4a"@.len() && "webm"@.len() != "mp4"@.len());
    }
    assert(MediaType::from_ext_spec(Some("zip"@)) == MediaType::ArchiveZip) by {
        lemma_normal_text("zip"@);
        assert("zip"@[0] != "txt"@[0] && "zip"@.len() != "md"@.len() && "zip"@.len() != "markdown"@.len() && "zip"@.len() != "html"@.len() && "zip"@[0] != "htm"@[0] && "zip"@[0] != "xml"@[0] && "zip"@[0] != "csv"@[0] && "zip"@.len() != "toml"@.len() && "zip"@.len() != "yaml"@.len() && "zip"@[0] != "yml"@[0] && "zip"@.len() != "json"@.len() && "zip"@.len() != "rs"@.len() && "zip"@.len() != "cs"@.len() && "zip"@.len() != "ts"@.len() && "zip"@.len() != "js"@.len() && "zip"@[0] != "mjs"@[0] && "zip"@[0] != "cjs"@[0] && "zip"@.len() != "py"@.len() && "zip"@.len() != "go"@.len() && "zip"@.len() != "java"@.len() && "zip"@.len() != "kt"@.len() && "zip"@[0] != "kts"@[0] && "zip"@.len() != "swift"@.len() && "zip"@[0] != "cpp"@[0] && "zip"@.len() != "cc"@.len() && "zip"@[0] != "cxx"@[0] && "zip"@[0] != "hpp"@[0] && "zip"@.len() != "hh"@.len() && "zip"@[0] != "hxx"@[0] && "zip"@.len() != "c"@.len() && "zip"@.len() != "h"@.len() && "zip"@[0] != "sql"@[0] && "zip"@.len() != "sh"@.len() && "zip"@.len() != "bash"@.len() && "zip"@[1] != "zsh"@[1] && "zip"@.len() != "fish"@.len() && "zip"@[0] != "pdf"@[0] && "zip"@.len() != "docx"@.len() && "zip"@.len() != "pptx"@.len() && "zip"@.len() != "xlsx"@.len() && "zip"@.len() != "parquet"@.len() && "zip"@.len() != "avro"@.len() && "zip"@[0] != "png"@[0] && "zip"@[0] != "jpg"@[0] && "zip"@.len() != "jpeg"@.len() && "zip"@.len() != "webp"@.len() && "zip"@[0] != "gif"@[0] && "zip"@[0] != "svg"@[0] && "zip"@[0] != "mp3"@[0] && "zip"@[0] != "wav"@[0] && "zip"@[0] != "m4a"@[0] && "zip"@[0] != "mp4"@[0] && "zip"@.len() != "webm"@.len());
    }
    assert(MediaType::from_ext_spec(Some("tar"@)) == MediaType::ArchiveTar) by {
        lemma_normal_text("tar"@);
        assert("tar"@[1] != "txt"@[1] && "tar"@.len() != "md"@.len() && "tar"@.len() != "markdown"@.len() && "tar"@.len() != "html"@.len() && "tar"@[0] != "htm"@[0] && "tar"@[0] != "xml"@[0] && "tar"@[0] != "csv"@[0] && "tar"@.len() != "toml"@.len() && "tar"@.len() != "yaml"@.len() && "tar"@[0] != "yml"@[0] && "tar"@.len() != "json"@.len() && "tar"@.len() != "rs"@.len() && "tar"@.len() != "cs"@.len() && "tar"@.len() != "ts"@.len() && "tar"@.len() != "js"@.len() && "tar"@[0] != "mjs"@[0] && "tar"@[0] != "cjs"@[0] && "tar"@.len() != "py"@.len() && "tar"@.len() != "go"@.len() && "tar"@.len() != "java"@.len() && "tar"@.len() != "kt"@.len() && "tar"@[0] != "kts"@[0] && "tar"@.len() != "swift"@.len() && "tar"@[0] != "cpp"@[0] && "tar"@.len() != "cc"@.len() && "tar"@[0] != "cxx"@[0] && "tar"@[0] != "hpp"@[0] && "tar"@.len() != "hh"@.len() && "tar"@[0] != "hxx"@[0] && "tar"@.len() != "c"@.len() && "tar"@.len() != "h"@.len() && "tar"@[0] != "sql"@[0] && "tar"@.len() != "sh"@.len() && "tar"@.len() != "bash"@.len() && "tar"@[0] != "zsh"@[0] && "tar"@.len() != "fish"@.len() && "tar"@[0] != "pdf"@[0] && "tar"@.len() != "docx"@.len() && "tar"@.len() != "pptx"@.len() && "tar"@.len() != "xlsx"@.len() && "tar"@.len() != "parquet"@.len() && "tar"@.len() != "avro"@.len() && "tar"@[0] != "png"@[0] && "tar"@[0] != "jpg"@[0] && "tar"@.len() != "jpeg"@.len() && "tar"@.len() != "webp"@.len() && "tar"@[0] != "gif"@[0] && "tar"@[0] != "svg"@[0] && "tar"@[0] != "mp3"@[0] && "tar"@[0] != "wav"@[0] && "tar"@[0] != "m4a"@[0] && "tar"@[0] != "mp4"@[0] && "tar"@.len() != "webm"@.len() && "tar"@[0] != "zip"@[0]);
    }
    assert(MediaType::from_ext_spec(Some("gz"@)) == MediaType::ArchiveGzip) by {
        lemma_normal_text("gz"@);
        assert("gz"@.len() != "txt"@.len() && "gz"@[0] != "md"@[0] && "gz"@.len() != "markdown"@.len() && "gz"@.len() != "html"@.len() && "gz"@.len() != "htm"@.len() && "gz"@.len() != "xml"@.len() && "gz"@.len() != "csv"@.len() && "gz"@.len() != "toml"@.len() && "gz"@.len() != "yaml"@.len() && "gz"@.len() != "yml"@.len() && "gz"@.len() != "json"@.len() && "gz"@[0] != "rs"@[0] && "gz"@[0] != "cs"@[0] && "gz"@[0] != "ts"@[0] && "gz"@[0] != "js"@[0] && "gz"@.len() != "mjs"@.len() && "gz"@.len() != "cjs"@.len() && "gz"@[0] != "py"@[0] && "gz"@[1] != "go"@[1] && "gz"@.len() != "java"@.len() && "gz"@[0] != "kt"@[0] && "gz"@.len() != "kts"@.len() && "gz"@.len() != "swift"@.len() && "gz"@.len() != "cpp"@.len() && "gz"@[0] != "cc"@[0] && "gz"@.len() != "cxx"@.len() && "gz"@.len() != "hpp"@.len() && "gz"@[0] != "hh"@[0] && "gz"@.len() != "hxx"@.len() && "gz"@.len() != "c"@.len() && "gz"@.len() != "h"@.len() && "gz"@.len() != "sql"@.len() && "gz"@[0] != "sh"@[0] && "gz"@.len() != "bash"@.len() && "gz"@.len() != "zsh"@.len() && "gz"@.len() != "fish"@.len() && "gz"@.len() != "pdf"@.len() && "gz"@.len() != "docx"@.len() && "gz"@.len() != "pptx"@.len() && "gz"@.len() != "xlsx"@.len() && "gz"@.len() != "parquet"@.len() && "gz"@.len() != "avro"@.len() && "gz"@.len() != "png"@.len() && "gz"@.len() != "jpg"@.len() && "gz"@.len() != "jpeg"@.len() && "gz"@.len() != "webp"@.len() && "gz"@.len() != "gif"@.len() && "gz"@.len() != "svg"@.len() && "gz"@.len() != "mp3"@.len() && "gz"@.len() != "wav"@.len() && "gz"@.len() != "m4a"@.len() && "gz"@.len() != "mp4"@.len() && "gz"@.len() != "webm"@.len() && "gz"@.len() != "zip"@.len() && "gz"@.len() != "tar"@.len());
    }
    assert(MediaType::from_ext_spec(Some("gzip"@)) == MediaType::ArchiveGzip) by {
        lemma_normal_text("gzip"@);
        assert("gzip"@.len() != "txt"@.len() && "gzip"@.len() != "md"@.len() && "gzip"@.len() != "markdown"@.len() && "gzip"@[0] != "html"@[0] && "gzip"@.len() != "htm"@.len() && "gzip"@.len() != "xml"@.len() && "gzip"@.len() != "csv"@.len() && "gzip"@[0] != "toml"@[0] && "gzip"@[0] != "yaml"@[0] && "gzip"@.len() != "yml"@.len() && "gzip"@[0] != "json"@[0] && "gzip"@.len() != "rs"@.len() && "gzip"@.len() != "cs"@.len() && "gzip"@.len() != "ts"@.len() && "gzip"@.len() != "js"@.len() && "gzip"@.len() != "mjs"@.len() && "gzip"@.len() != "cjs"@.len() && "gzip"@.len() != "py"@.len() && "gzip"@.len() != "go"@.len() && "gzip"@[0] != "java"@[0] && "gzip"@.len() != "kt"@.len() && "gzip"@.len() != "kts"@.len() && "gzip"@.len() != "swift"@.len() && "gzip"@.len() != "cpp"@.len() && "gzip"@.len() != "cc"@.len() && "gzip"@.len() != "cxx"@.len() && "gzip"@.len() != "hpp"@.len() && "gzip"@.len() != "hh"@.len() && "gzip"@.len() != "hxx"@.len() && "gzip"@.len() != "c"@.len() && "gzip"@.len() != "h"@.len() && "gzip"@.len() != "sql"@.len() && "gzip"@.len() != "sh"@.len() && "gzip"@[0] != "bash"@[0] && "gzip"@.len() != "zsh"@.len() && "gzip"@[0] != "fish"@[0] && "gzip"@.len() != "pdf"@.len() && "gzip"@[0] != "docx"@[0] && "gzip"@[0] != "pptx"@[0] && "gzip"@[0] != "xlsx"@[0] && "gzip"@.len() != "parquet"@.len() && "gzip"@[0] != "avro"@[0] && "gzip"@.len() != "png"@.len() && "gzip"@.len() != "jpg"@.len() && "gzip"@[0] != "jpeg"@[0] && "gzip"@[0] != "webp"@[0] && "gzip"@.len() != "gif"@.len() && "gzip"@.len() != "svg"@.len() && "gzip"@.len() != "mp3"@.len() && "gzip"@.len() != "wav"@.len() && "gzip"@.len() != "m4a"@.len() && "gzip"@.len() != "mp4"@.len() && "gzip"@[0] != "webm"@[0] && "gzip"@.len() != "zip"@.len() && "gzip"@.len() != "tar"@.len() && "gzip"@.len() != "gz"@.len());
    }
}

/// Every file extension of the media-type table names its media type: the
/// text, markup, code, document, image, audio, video and archive extensions,
/// aliases (`yml`, `htm`, `mjs`, `cc`, `jpeg`, `gzip`, ...) included.
pub proof fn law_extension_table()
    ensures
        MediaType::from_ext_spec(Some("txt"@)) == MediaType::TextPlain,
        MediaType::from_ext_spec(Some("md"@)) == MediaType::TextMarkdown,
        MediaType::from_ext_spec(Some("markdown"@)) == MediaType::TextMarkdown,
        MediaType::from_ext_spec(Some("html"@)) == MediaType::TextHtml,
        MediaType::from_ext_spec(Some("htm"@)) == MediaType::TextHtml,
        MediaType::from_ext_spec(Some("xml"@)) == MediaType::TextXml,
        MediaType::from_ext_spec(Some("csv"@)) == MediaType::TextCsv,
        MediaType::from_ext_spec(Some("toml"@)) == MediaType::TextToml,
        MediaType::from_ext_spec(Some("yaml"@)) == MediaType::TextYaml,
        MediaType::from_ext_spec(Some("yml"@)) == MediaType::TextYaml,
        MediaType::from_ext_spec(Some("json"@)) == MediaType::TextJson,
        MediaType::from_ext_spec(Some("rs"@)) == MediaType::CodeRust,
        MediaType::from_ext_spec(Some("cs"@)) == MediaType::CodeCSharp,
        MediaType::from_ext_spec(Some("ts"@)) == MediaType::CodeTypeScript,
        MediaType::from_ext_spec(Some("js"@)) == MediaType::CodeJavaScript,
        MediaType::from_ext_spec(Some("mjs"@)) == MediaType::CodeJavaScript,
        MediaType::from_ext_spec(Some("cjs"@)) == MediaType::CodeJavaScript,
        MediaType::from_ext_spec(Some("py"@)) == MediaType::CodePython,
        MediaType::from_ext_spec(Some("go"@)) == MediaType::CodeGo,
        MediaType::from_ext_spec(Some("java"@)) == MediaType::CodeJava,
        MediaType::from_ext_spec(Some("kt"@)) == MediaType::CodeKotlin,
        MediaType::from_ext_spec(Some("kts"@)) == MediaType::CodeKotlin,
        MediaType::from_ext_spec(Some("swift"@)) == MediaType::CodeSwift,
        MediaType::from_ext_spec(Some("cpp"@)) == MediaType::CodeCpp,
        MediaType::from_ext_spec(Some("cc"@)) == MediaType::CodeCpp,
        MediaType::from_ext_spec(Some("cxx"@)) == MediaType::CodeCpp,
        MediaType::from_ext_spec(Some("hpp"@)) == MediaType::CodeCpp,
        MediaType::from_ext_spec(Some("hh"@)) == MediaType::CodeCpp,
        MediaType::from_ext_spec(Some("hxx"@)) == MediaType::CodeCpp,
        MediaType::from_ext_spec(Some("c"@)) == MediaType::CodeC,
        MediaType::from_ext_spec(Some("h"@)) == MediaType::CodeC,
        MediaType::from_ext_spec(Some("sql"@)) == MediaType::CodeSql,
        MediaType::from_ext_spec(Some("sh"@)) == MediaType::CodeShell,
        MediaType::from_ext_spec(Some("bash"@)) == MediaType::CodeShell,
        MediaType::from_ext_spec(Some("zsh"@)) == MediaType::CodeShell,
        MediaType::from_ext_spec(Some("fish"@)) == MediaType::CodeShell,
        MediaType::from_ext_spec(Some("pdf"@)) == MediaType::Pdf,
        MediaType::from_ext_spec(Some("docx"@)) == MediaType::Docx,
        MediaType::from_ext_spec(Some("pptx"@)) == MediaType::Pptx,
        MediaType::from_ext_spec(Some("xlsx"@)) == MediaType::Xlsx,
        MediaType::from_ext_spec(Some("parquet"@)) == MediaType::Parquet,
        MediaType::from_ext_spec(Some("avro"@)) == MediaType::Avro,
        MediaType::from_ext_spec(Some("png"@)) == MediaType::ImagePng,
        MediaType::from_ext_spec(Some("jpg"@)) == MediaType::ImageJpeg,
        MediaType::from_ext_spec(Some("jpeg"@)) == MediaType::ImageJpeg,
        MediaType::from_ext_spec(Some("webp"@)) == MediaType::ImageWebp,
        MediaType::from_ext_spec(Some("gif"@)) == MediaType::ImageGif,
        MediaType::from_ext_spec(Some("svg"@)) == MediaType::ImageSvg,
        MediaType::from_ext_spec(Some("mp3"@)) == MediaType::AudioMp3,
        MediaType::from_ext_spec(Some("wav"@)) == MediaType::AudioWav,
        MediaType::from_ext_spec(Some("m4a"@)) == MediaType::AudioM4a,
        MediaType::from_ext_spec(Some("mp4"@)) == MediaType::VideoMp4,
        MediaType::from_ext_spec(Some("webm"@)) == MediaType::VideoWebm,
        MediaType::from_ext_spec(Some("zip"@)) == MediaType::ArchiveZip,
        MediaType::from_ext_spec(Some("tar"@)) == MediaType::ArchiveTar,
        MediaType::from_ext_spec(Some("gz"@)) == MediaType::ArchiveGzip,
        MediaType::from_ext_spec(Some("gzip"@)) == MediaType::ArchiveGzip,
{
    lemma_extension_table_0();
    lemma_extension_table_1();
    lemma_extension_table_2();
    lemma_extension_table_3();
}

/// Every MIME name of the media-type table reads as its media type, the
/// alias names (`application/xml`, `text/yaml`, `text/json`) included.
pub proof fn law_mime_table()
    ensures
        MediaType::from_mime_spec("text/plain"@) == MediaType::TextPlain,
        MediaType::from_mime_spec("text/markdown"@) == MediaType::TextMarkdown,
        MediaType::from_mime_spec("text/html"@) == MediaType::TextHtml,
        MediaType::from_mime_spec("text/xml"@) == MediaType::TextXml,
        MediaType::from_mime_spec("application/xml"@) == MediaType::TextXml,
        MediaType::from_mime_spec("text/csv"@) == MediaType::TextCsv,
        MediaType::from_mime_spec("application/toml"@) == MediaType::TextToml,
        MediaType::from_mime_spec("application/yaml"@) == MediaType::TextYaml,
        MediaType::from_mime_spec("text/yaml"@) == MediaType::TextYaml,
        MediaType::from_mime_spec("application/json"@) == MediaType::TextJson,
        MediaType::from_mime_spec("text/json"@) == MediaType::TextJson,
        MediaType::from_mime_spec("application/pdf"@) == MediaType::Pdf,
        MediaType::from_mime_spec("application/octet-stream"@) == MediaType::Binary,
        MediaType::from_mime_spec("image/png"@) == MediaType::ImagePng,
        MediaType::from_mime_spec("image/jpeg"@) == MediaType::ImageJpeg,
        MediaType::from_mime_spec("image/webp"@) == MediaType::ImageWebp,
        MediaType::from_mime_spec("image/gif"@) == MediaType::ImageGif,
        MediaType::from_mime_spec("image/svg+xml"@) == MediaType::ImageSvg,
        MediaType::from_mime_spec("audio/mpeg"@) == MediaType::AudioMp3,
        MediaType::from_mime_spec("audio/wav"@) == MediaType::AudioWav,
        MediaType::from_mime_spec("audio/mp4"@) == MediaType::AudioM4a,
        MediaType::from_mime_spec("video/mp4"@) == MediaType::VideoMp4,
        MediaType::from_mime_spec("video/webm"@) == MediaType::VideoWebm,
        MediaType::from_mime_spec("application/zip"@) == MediaType::ArchiveZip,
        MediaType::from_mime_spec("application/x-tar"@) == MediaType::ArchiveTar,
        MediaType::from_mime_spec("application/gzip"@) == MediaType::ArchiveGzip,
{
    reveal_strlit("application/gzip");
    reveal_strlit("application/json");
    reveal_strlit("application/octet-stream");
    reveal_strlit("application/pdf");
    reveal_strlit("application/toml");
    reveal_strlit("application/x-tar");
    reveal_strlit("application/xml");
    reveal_strlit("application/yaml");
    reveal_strlit("application/zip");
    reveal_strlit("audio/mp4");
    reveal_strlit("audio/mpeg");
    reveal_strlit("audio/wav");
    reveal_strlit("image/gif");
    reveal_strlit("image/jpeg");
    reveal_strlit("image/png");
    reveal_strlit("image/svg+xml");
    reveal_strlit("image/webp");
    reveal_strlit("text/");
    reveal_strlit("text/csv");
    reveal_strlit("text/html");
    reveal_strlit("text/json");
    reveal_strlit("text/markdown");
    reveal_strlit("text/plain");
    reveal_strlit("text/xml");
    reveal_strlit("text/yaml");
    reveal_strlit("video/mp4");
    reveal_strlit("video/webm");
    assert(MediaType::from_mime_spec("text/plain"@) == MediaType::TextPlain) by {
        lemma_normal_text("text/plain"@);
    }
    assert(MediaType::from_mime_spec("text/markdown"@) == MediaType::TextMarkdown) by {
        lemma_normal_text("text/markdown"@);
        assert("text/markdown"@.len() != "text/plain"@.len());
    }
    assert(MediaType::from_mime_spec("text/html"@) == MediaType::TextHtml) by {
        lemma_normal_text("text/html"@);
        assert("text/html"@.len() != "text/plain"@.len() && "text/html"@.len() != "text/markdown"@.len());
    }
    assert(MediaType::from_mime_spec("text/xml"@) == MediaType::TextXml) by {
        lemma_normal_text("text/xml"@);
        assert("text/xml"@.len() != "text/plain"@.len() && "text/xml"@.len() != "text/markdown"@.len() && "text/xml"@.len() != "text/html"@.len());
    }
    assert(MediaType::from_mime_spec("application/xml"@) == MediaType::TextXml) by {
        lemma_normal_text("application/xml"@);
        assert("application/xml"@.len() != "text/plain"@.len() && "application/xml"@.len() != "text/markdown"@.len() && "application/xml"@.len() != "text/html"@.len() && "application/xml"@.len() != "text/xml"@.len());
    }
    assert(MediaType::from_mime_spec("text/csv"@) == MediaType::TextCsv) by {
        lemma_normal_text("text/csv"@);
        assert("text/csv"@.len() != "text/plain"@.len() && "text/csv"@.len() != "text/markdown"@.len() && "text/csv"@.len() != "text/html"@.len() && "text/csv"@[5] != "text/xml"@[5] && "text/csv"@.len() != "application/xml"@.len());
    }
    assert(MediaType::from_mime_spec("application/toml"@) == MediaType::TextToml) by {
        lemma_normal_text("application/toml"@);
        assert("application/toml"@.len() != "text/plain"@.len() && "application/toml"@.len() != "text/markdown"@.len() && "application/toml"@.len() != "text/html"@.len() && "application/toml"@.len() != "text/xml"@.len() && "application/toml"@.len() != "application/xml"@.len() && "application/toml"@.len() != "text/csv"@.len());
    }
    assert(MediaType::from_mime_spec("application/yaml"@) == MediaType::TextYaml) by {
        lemma_normal_text("application/yaml"@);
        assert("application/yaml"@.len() != "text/plain"@.len() && "application/yaml"@.len() != "text/markdown"@.len() && "application/yaml"@.len() != "text/html"@.len() && "application/yaml"@.len() != "text/xml"@.len() && "application/yaml"@.len() != "application/xml"@.len() && "application/yaml"@.len() != "text/csv"@.len() && "application/yaml"@[12] != "application/toml"@[12]);
    }
    assert(MediaType::from_mime_spec("text/yaml"@) == MediaType::TextYaml) by {
        lemma_normal_text("text/yaml"@);
        assert("text/yaml"@.len() != "text/plain"@.len() && "text/yaml"@.len() != "text/markdown"@.len() && "text/yaml"@[5] != "text/html"@[5] && "text/yaml"@.len() != "text/xml"@.len() && "text/yaml"@.len() != "application/xml"@.len() && "text/yaml"@.len() != "text/csv"@.len() && "text/yaml"@.len() != "application/toml"@.len() && "text/yaml"@.len() != "application/yaml"@.len());
    }
    assert(MediaType::from_mime_spec("application/json"@) == MediaType::TextJson) by {
        lemma_normal_text("application/json"@);
        assert("application/json"@.len() != "text/plain"@.len() && "application/json"@.len() != "text/markdown"@.len() && "application/json"@.len() != "text/html"@.len() && "application/json"@.len() != "text/xml"@.len() && "application/json"@.len() != "application/xml"@.len() && "application/json"@.len() != "text/csv"@.len() && "application/json"@[12] != "application/toml"@[12] && "application/json"@[12] != "application/yaml"@[12] && "application/json"@.len() != "text/yaml"@.len());
    }
    assert(MediaType::from_mime_spec("text/json"@) == MediaType::TextJson) by {
        lemma_normal_text("text/json"@);
        assert("text/json"@.len() != "text/plain"@.len() && "text/json"@.len() != "text/markdown"@.len() && "text/json"@[5] != "text/html"@[5] && "text/json"@.len() != "text/xml"@.len() && "text/json"@.len() != "application/xml"@.len() && "text/json"@.len() != "text/csv"@.len() && "text/json"@.len() != "application/toml"@.len() && "text/json"@.len() != "application/yaml"@.len() && "text/json"@[5] != "text/yaml"@[5] && "text/json"@.len() != "application/json"@.len());
    }
    assert(MediaType::from_mime_spec("application/pdf"@) == MediaType::Pdf) by {
        lemma_normal_text("application/pdf"@);
        assert("application/pdf"@.len() != "text/plain"@.len() && "application/pdf"@.len() != "text/markdown"@.len() && "application/pdf"@.len() != "text/html"@.len() && "application/pdf"@.len() != "text/xml"@.len() && "application/pdf"@[12] != "application/xml"@[12] && "application/pdf"@.len() != "text/csv"@.len() && "application/pdf"@.len() != "application/toml"@.len() && "application/pdf"@.len() != "application/yaml"@.len() && "application/pdf"@.len() != "text/yaml"@.len() && "application/pdf"@.len() != "application/json"@.len() && "application/pdf"@.len() != "text/json"@.len());
    }
    assert(MediaType::from_mime_spec("application/octet-stream"@) == MediaType::Binary) by {
        lemma_normal_text("application/octet-stream"@);
        assert("application/octet-stream"@.len() != "text/plain"@.len() && "application/octet-stream"@.len() != "text/markdown"@.len() && "application/octet-stream"@.len() != "text/html"@.len() && "application/octet-stream"@.len() != "text/xml"@.len() && "application/octet-stream"@.len() != "application/xml"@.len() && "application/octet-stream"@.len() != "text/csv"@.len() && "application/octet-stream"@.len() != "application/toml"@.len() && "application/octet-stream"@.len() != "application/yaml"@.len() && "application/octet-stream"@.len() != "text/yaml"@.len() && "application/octet-stream"@.len() != "application/json"@.len() && "application/octet-stream"@.len() != "text/json"@.len() && "application/octet-stream"@.len() != "application/pdf"@.len());
    }
    assert(MediaType::from_mime_spec("image/png"@) == MediaType::ImagePng) by {
        lemma_normal_text("image/png"@);
        assert("image/png"@.len() != "text/plain"@.len() && "image/png"@.len() != "text/markdown"@.len() && "image/png"@[0] != "text/html"@[0] && "image/png"@.len() != "text/xml"@.len() && "image/png"@.len() != "application/xml"@.len() && "image/png"@.len() != "text/csv"@.len() && "image/png"@.len() != "application/toml"@.len() && "image/png"@.len() != "application/yaml"@.len() && "image/png"@[0] != "text/yaml"@[0] && "image/png"@.len() != "application/json"@.len() && "image/png"@[0] != "text/json"@[0] && "image/png"@.len() != "application/pdf"@.len() && "image/png"@.len() != "application/octet-stream"@.len());
    }
    assert(MediaType::from_mime_spec("image/jpeg"@) == MediaType::ImageJpeg) by {
        lemma_normal_text("image/jpeg"@);
        assert("image/jpeg"@[0] != "text/plain"@[0] && "image/jpeg"@.len() != "text/markdown"@.len() && "image/jpeg"@.len() != "text/html"@.len() && "image/jpeg"@.len() != "text/xml"@.len() && "image/jpeg"@.len() != "application/xml"@.len() && "image/jpeg"@.len() != "text/csv"@.len() && "image/jpeg"@.len() != "application/toml"@.len() && "image/jpeg"@.len() != "application/yaml"@.len() && "image/jpeg"@.len() != "text/yaml"@.len() && "image/jpeg"@.len() != "application/json"@.len() && "image/jpeg"@.len() != "text/json"@.len() && "image/jpeg"@.len() != "application/pdf"@.len() && "image/jpeg"@.len() != "application/octet-stream"@.len() && "image/jpeg"@.len() != "image/png"@.len());
    }
    assert(MediaType::from_mime_spec("image/webp"@) == MediaType::ImageWebp) by {
        lemma_normal_text("image/webp"@);
        assert("image/webp"@[0] != "text/plain"@[0] && "image/webp"@.len() != "text/markdown"@.len() && "image/webp"@.len() != "text/html"@.len() && "image/webp"@.len() != "text/xml"@.len() && "image/webp"@.len() != "application/xml"@.len() && "image/webp"@.len() != "text/csv"@.len() && "image/webp"@.len() != "application/toml"@.len() && "image/webp"@.len() != "application/yaml"@.len() && "image/webp"@.len() != "text/yaml"@.len() && "image/webp"@.len() != "application/json"@.len() && "image/webp"@.len() != "text/json"@.len() && "image/webp"@.len() != "application/pdf"@.len() && "image/webp"@.len() != "application/octet-stream"@.len() && "image/webp"@.len() != "image/png"@.len() && "image/webp"@[6] != "image/jpeg"@[6]);
    }
    assert(MediaType::from_mime_spec("image/gif"@) == MediaType::ImageGif) by {
        lemma_normal_text("image/gif"@);
        assert("image/gif"@.len() != "text/plain"@.len() && "image/gif"@.len() != "text/markdown"@.len() && "image/gif"@[0] != "text/html"@[0] && "image/gif"@.len() != "text/xml"@.len() && "image/gif"@.len() != "application/xml"@.len() && "image/gif"@.len() != "text/csv"@.len() && "image/gif"@.len() != "application/toml"@.len() && "image/gif"@.len() != "application/yaml"@.len() && "image/gif"@[0] != "text/yaml"@[0] && "image/gif"@.len() != "application/json"@.len() && "image/gif"@[0] != "text/json"@[0] && "image/gif"@.len() != "application/pdf"@.len() && "image/gif"@.len() != "application/octet-stream"@.len() && "image/gif"@[6] != "image/png"@[6] && "image/gif"@.len() != "image/jpeg"@.len() && "image/gif"@.len() != "image/webp"@.len());
    }
    assert(MediaType::from_mime_spec("image/svg+xml"@) == MediaType::ImageSvg) by {
        lemma_normal_text("image/svg+xml"@);
        assert("image/svg+xml"@.len() != "text/plain"@.len() && "image/svg+xml"@[0] != "text/markdown"@[0] && "image/svg+xml"@.len() != "text/html"@.len() && "image/svg+xml"@.len() != "text/xml"@.len() && "image/svg+xml"@.len() != "application/xml"@.len() && "image/svg+xml"@.len() != "text/csv"@.len() && "image/svg+xml"@.len() != "application/toml"@.len() && "image/svg+xml"@.len() != "application/yaml"@.len() && "image/svg+xml"@.len() != "text/yaml"@.len() && "image/svg+xml"@.len() != "application/json"@.len() && "image/svg+xml"@.len() != "text/json"@.len() && "image/svg+xml"@.len() != "application/pdf"@.len() && "image/svg+xml"@.len() != "application/octet-stream"@.len() && "image/svg+xml"@.len() != "image/png"@.len() && "image/svg+xml"@.len() != "image/jpeg"@.len() && "image/svg+xml"@.len() != "image/webp"@.len() && "image/svg+xml"@.len() != "image/gif"@.len());
    }
    assert(MediaType::from_mime_spec("audio/mpeg"@) == MediaType::AudioMp3) by {
        lemma_normal_text("audio/mpeg"@);
        assert("audio/mpeg"@[0] != "text/plain"@[0] && "audio/mpeg"@.len() != "text/markdown"@.len() && "audio/mpeg"@.len() != "text/html"@.len() && "audio/mpeg"@.len() != "text/xml"@.len() && "audio/mpeg"@.len() != "application/xml"@.len() && "audio/mpeg"@.len() != "text/csv"@.len() && "audio/mpeg"@.len() != "application/toml"@.len() && "audio/mpeg"@.len() != "application/yaml"@.len() && "audio/mpeg"@.len() != "text/yaml"@.len() && "audio/mpeg"@.len() != "application/json"@.len() && "audio/mpeg"@.len() != "text/json"@.len() && "audio/mpeg"@.len() != "application/pdf"@.len() && "audio/mpeg"@.len() != "application/octet-stream"@.len() && "audio/mpeg"@.len() != "image/png"@.len() && "audio/mpeg"@[0] != "image/jpeg"@[0] && "audio/mpeg"@[0] != "image/webp"@[0] && "audio/mpeg"@.len() != "image/gif"@.len() && "audio/mpeg"@.len() != "image/svg+xml"@.len());
    }
    assert(MediaType::from_mime_spec("audio/wav"@) == MediaType::AudioWav) by {
        lemma_normal_text("audio/wav"@);
        assert("audio/wav"@.len() != "text/plain"@.len() && "audio/wav"@.len() != "text/markdown"@.len() && "audio/wav"@[0] != "text/html"@[0] && "audio/wav"@.len() != "text/xml"@.len() && "audio/wav"@.len() != "application/xml"@.len() && "audio/wav"@.len() != "text/csv"@.len() && "audio/wav"@.len() != "application/toml"@.len() && "audio/wav"@.len() != "application/yaml"@.len() && "audio/wav"@[0] != "text/yaml"@[0] && "audio/wav"@.len() != "application/json"@.len() && "audio/wav"@[0] != "text/json"@[0] && "audio/wav"@.len() != "application/pdf"@.len() && "audio/wav"@.len() != "application/octet-stream"@.len() && "audio/wav"@[0] != "image/png"@[0] && "audio/wav"@.len() != "image/jpeg"@.len() && "audio/wav"@.len() != "image/webp"@.len() && "audio/wav"@[0] != "image/gif"@[0] && "audio/wav"@.len() != "image/svg+xml"@.len() && "audio/wav"@.len() != "audio/mpeg"@.len());
    }
    assert(MediaType::from_mime_spec("audio/mp4"@) == MediaType::AudioM4a) by {
        lemma_normal_text("audio/mp4"@);
        assert("audio/mp4"@.len() != "text/plain"@.len() && "audio/mp4"@.len() != "text/markdown"@.len() && "audio/mp4"@[0] != "text/html"@[0] && "audio/mp4"@.len() != "text/xml"@.len() && "audio/mp4"@.len() != "application/xml"@.len() && "audio/mp4"@.len() != "text/csv"@.len() && "audio/mp4"@.len() != "application/toml"@.len() && "audio/mp4"@.len() != "application/yaml"@.len() && "audio/mp4"@[0] != "text/yaml"@[0] && "audio/mp4"@.len() != "application/json"@.len() && "audio/mp4"@[0] != "text/json"@[0] && "audio/mp4"@.len() != "application/pdf"@.len() && "audio/mp4"@.len() != "application/octet-stream"@.len() && "audio/mp4"@[0] != "image/png"@[0] && "audio/mp4"@.len() != "image/jpeg"@.len() && "audio/mp4"@.len() != "image/webp"@.len() && "audio/mp4"@[0] != "image/gif"@[0] && "audio/mp4"@.len() != "image/svg+xml"@.len() && "audio/mp4"@.len() != "audio/mpeg"@.len() && "audio/mp4"@[6] != "audio/wav"@[6]);
    }
    assert(MediaType::from_mime_spec("video/mp4"@) == MediaType::VideoMp4) by {
        lemma_normal_text("video/mp4"@);
        assert("video/mp4"@.len() != "text/plain"@.len() && "video/mp4"@.len() != "text/markdown"@.len() && "video/mp4"@[0] != "text/html"@[0] && "video/mp4"@.len() != "text/xml"@.len() && "video/mp4"@.len() != "application/xml"@.len() && "video/mp4"@.len() != "text/csv"@.len() && "video/mp4"@.len() != "application/toml"@.len() && "video/mp4"@.len() != "application/yaml"@.len() && "video/mp4"@[0] != "text/yaml"@[0] && "video/mp4"@.len() != "application/json"@.len() && "video/mp4"@[0] != "text/json"@[0] && "video/mp4"@.len() != "application/pdf"@.len() && "video/mp4"@.len() != "application/octet-stream"@.len() && "video/mp4"@[0] != "image/png"@[0] && "video/mp4"@.len() != "image/jpeg"@.len() && "video/mp4"@.len() != "image/webp"@.len() && "video/mp4"@[0] != "image/gif"@[0] && "video/mp4"@.len() != "image/svg+xml"@.len() && "video/mp4"@.len() != "audio/mpeg"@.len() && "video/mp4"@[0] != "audio/wav"@[0] && "video/mp4"@[0] != "audio/mp4"@[0]);
    }
    assert(MediaType::from_mime_spec("video/webm"@) == MediaType::VideoWebm) by {
        lemma_normal_text("video/webm"@);
        assert("video/webm"@[0] != "text/plain"@[0] && "video/webm"@.len() != "text/markdown"@.len() && "video/webm"@.len() != "text/html"@.len() && "video/webm"@.len() != "text/xml"@.len() && "video/webm"@.len() != "application/xml"@.len() && "video/webm"@.len() != "text/csv"@.len() && "video/webm"@.len() != "application/toml"@.len() && "video/webm"@.len() != "application/yaml"@.len() && "video/webm"@.len() != "text/yaml"@.len() && "video/webm"@.len() != "application/json"@.len() && "video/webm"@.len() != "text/json"@.len() && "video/webm"@.len() != "application/pdf"@.len() && "video/webm"@.len() != "application/octet-stream"@.len() && "video/webm"@.len() != "image/png"@.len() && "video/webm"@[0] != "image/jpeg"@[0] && "video/webm"@[0] != "image/webp"@[0] && "video/webm"@.len() != "image/gif"@.len() && "video/webm"@.len() != "image/svg+xml"@.len() && "video/webm"@[0] != "audio/mpeg"@[0] && "video/webm"@.len() != "audio/wav"@.len() && "video/webm"@.len() != "audio/mp4"@.len() && "video/webm"@.len() != "video/mp4"@.len());
    }
    assert(MediaType::from_mime_spec("application/zip"@) == MediaType::ArchiveZip) by {
        lemma_normal_text("application/zip"@);
        assert("application/zip"@.len() != "text/plain"@.len() && "application/zip"@.len() != "text/markdown"@.len() && "application/zip"@.len() != "text/html"@.len() && "application/zip"@.len() != "text/xml"@.len() && "application/zip"@[12] != "application/xml"@[12] && "application/zip"@.len() != "text/csv"@.len() && "application/zip"@.len() != "application/toml"@.len() && "application/zip"@.len() != "application/yaml"@.len() && "application/zip"@.len() != "text/yaml"@.len() && "application/zip"@.len() != "application/json"@.len() && "application/zip"@.len() != "text/json"@.len() && "application/zip"@[12] != "application/pdf"@[12] && "application/zip"@.len() != "application/octet-stream"@.len() && "application/zip"@.len() != "image/png"@.len() && "application/zip"@.len() != "image/jpeg"@.len() && "application/zip"@.len() != "image/webp"@.len() && "application/zip"@.len() != "image/gif"@.len() && "application/zip"@.len() != "image/svg+xml"@.len() && "application/zip"@.len() != "audio/mpeg"@.len() && "application/zip"@.len() != "audio/wav"@.len() && "application/zip"@.len() != "audio/mp4"@.len() && "application/zip"@.len() != "video/mp4"@.len() && "application/zip"@.len() != "video/webm"@.len());
    }
    assert(MediaType::from_mime_spec("application/x-tar"@) == MediaType::ArchiveTar) by {
        lemma_normal_text("application/x-tar"@);
        assert("application/x-tar"@.len() != "text/plain"@.len() && "application/x-tar"@.len() != "text/markdown"@.len() && "application/x-tar"@.len() != "text/html"@.len() && "application/x-tar"@.len() != "text/xml"@.len() && "application/x-tar"@.len() != "application/xml"@.len() && "application/x-tar"@.len() != "text/csv"@.len() && "application/x-tar"@.len() != "application/toml"@.len() && "application/x-tar"@.len() != "application/yaml"@.len() && "application/x-tar"@.len() != "text/yaml"@.len() && "application/x-tar"@.len() != "application/json"@.len() && "application/x-tar"@.len() != "text/json"@.len() && "application/x-tar"@.len() != "application/pdf"@.len() && "application/x-tar"@.len() != "application/octet-stream"@.len() && "application/x-tar"@.len() != "image/png"@.len() && "application/x-tar"@.len() != "image/jpeg"@.len() && "application/x-tar"@.len() != "image/webp"@.len() && "application/x-tar"@.len() != "image/gif"@.len() && "application/x-tar"@.len() != "image/svg+xml"@.len() && "application/x-tar"@.len() != "audio/mpeg"@.len() && "application/x-tar"@.len() != "audio/wav"@.len() && "application/x-tar"@.len() != "audio/mp4"@.len() && "application/x-tar"@.len() != "video/mp4"@.len() && "application/x-tar"@.len() != "video/webm"@.len() && "application/x-tar"@.len() != "application/zip"@.len());
    }
    assert(MediaType::from_mime_spec("application/gzip"@) == MediaType::ArchiveGzip) by {
        lemma_normal_text("application/gzip"@);
        assert("application/gzip"@.len() != "text/plain"@.len() && "application/gzip"@.len() != "text/markdown"@.len() && "application/gzip"@.len() != "text/html"@.len() && "application/gzip"@.len() != "text/xml"@.len() && "application/gzip"@.len() != "application/xml"@.len() && "application/gzip"@.len() != "text/csv"@.len() && "application/gzip"@[12] != "application/toml"@[12] && "application/gzip"@[12] != "application/yaml"@[12] && "application/gzip"@.len() != "text/yaml"@.len() && "application/gzip"@[12] != "application/json"@[12] && "application/gzip"@.len() != "text/json"@.len() && "application/gzip"@.len() != "application/pdf"@.len() && "application/gzip"@.len() != "application/octet-stream"@.len() && "application/gzip"@.len() != "image/png"@.len() && "application/gzip"@.len() != "image/jpeg"@.len() && "application/gzip"@.len() != "image/webp"@.len() && "application/gzip"@.len() != "image/gif"@.len() && "application/gzip"@.len() != "image/svg+xml"@.len() && "application/gzip"@.len() != "audio/mpeg"@.len() && "application/gzip"@.len() != "audio/wav"@.len() && "application/gzip"@.len() != "audio/mp4"@.len() && "application/gzip"@.len() != "video/mp4"@.len() && "application/gzip"@.len() != "video/webm"@.len() && "application/gzip"@.len() != "application/zip"@.len() && "application/gzip"@.len() != "application/x-tar"@.len());
    }
}

} // verus!
