use std::io;
use std::path::PathBuf;

use loom::bench::AsyncRunConfig;
use loom::codec::CodecError;
use loom::config::{ConfigViolation, LoomConfig};
use loom::data_source::file_system_source::file_count;
use loom::data_source::json_source::{content_kind, file_document, value_json, ContentKind};
use loom::data_source::{
    DataSource, Document, ETag, Entity, FileSystemSource, JsonFileSource, JsonFileSourceOptions,
    MemorySource, ReadError, Record, Value, WriteError,
};
use loom::eval::ScoreConfig;
use loom::media_type::{Format, MediaType};
use loom::model::ModelType;
use loom::path::{FieldPath, FilePath, Path, UriPath};

fn file(p: &str) -> Path {
    Path::File(FilePath::parse(p))
}

// === memory source ===

#[test]
fn memory_read_after_write() {
    let mut ds = MemorySource::new();
    let path = file("/notes/a.txt");
    ds.create(Record::from_str(path.clone(), MediaType::TextPlain, "one")).unwrap();
    assert!(ds.path_exists(&path).unwrap());
    assert_eq!(ds.find_one(&path).unwrap().content_str().unwrap(), "one");
    ds.upsert(Record::from_str(path.clone(), MediaType::TextPlain, "two")).unwrap();
    assert_eq!(ds.find_one(&path).unwrap().content_str().unwrap(), "two");
    assert_eq!(ds.count(&file("/notes")).unwrap(), 1);
}

#[test]
fn memory_refusals_name_the_path() {
    let mut ds = MemorySource::new();
    let path = file("/x.txt");
    match ds.update(Record::from_str(path.clone(), MediaType::TextPlain, "v")) {
        Err(WriteError::Custom(m)) => assert_eq!(m, "record not found: /x.txt"),
        _ => panic!("expected a refusal"),
    }
    ds.create(Record::from_str(path.clone(), MediaType::TextPlain, "v")).unwrap();
    match ds.create(Record::from_str(path.clone(), MediaType::TextPlain, "w")) {
        Err(WriteError::Custom(m)) => assert_eq!(m, "record already exists: /x.txt"),
        _ => panic!("expected a refusal"),
    }
    ds.delete(&path).unwrap();
    assert!(!ds.path_exists(&path).unwrap());
    match ds.find_one(&path) {
        Err(ReadError::Custom(m)) => assert_eq!(m, "record not found: /x.txt"),
        _ => panic!("expected a refusal"),
    }
    assert!(ds.delete(&path).is_err());
}

#[test]
fn memory_find_lists_records_under_a_prefix_in_order() {
    let mut ds = MemorySource::new();
    for p in ["/a/1", "/b/1", "/a/2"] {
        ds.upsert(Record::from_str(file(p), MediaType::TextPlain, p)).unwrap();
    }
    let found: Vec<String> = ds.find(&file("/a/")).unwrap().iter().map(|r| r.id()).collect();
    assert_eq!(found, vec!["/a/1".to_string(), "/a/2".to_string()]);
}

// === file-system source decisions ===

#[test]
fn file_system_source_refuses_non_file_paths() {
    let ds = FileSystemSource::new();
    let field = Path::Field(FieldPath::parse("a.b").unwrap());
    match ds.full_path(&field) {
        Err(ReadError::Custom(m)) => assert_eq!(m, "FileSystemSource only supports File paths"),
        _ => panic!("expected a refusal"),
    }
    assert!(ds.full_path(&file("rel/x.txt")).is_ok());
}

#[test]
fn file_system_source_caches_what_it_reads_until_cleared() {
    let mut ds = FileSystemSource::new();
    let path = file("/data/x.md");
    assert!(ds.cached(&path).is_none());
    let rec = ds.loaded(&path, "/data/x.md", Ok(b"# hi".to_vec())).unwrap();
    assert_eq!(rec.media_type, MediaType::TextMarkdown);
    assert_eq!(ds.cached(&path).unwrap().content, b"# hi".to_vec());
    ds.clear().unwrap();
    assert!(ds.cached(&path).is_none());
}

#[test]
fn file_system_source_passes_io_failures_on() {
    let mut ds = FileSystemSource::new();
    let path = file("/data/x.md");
    let e = ds.loaded(&path, "/data/x.md", Err(io::Error::from(io::ErrorKind::NotFound)));
    assert!(e.unwrap_err().is_io());
    assert!(ds.cached(&path).is_none());
    let rec = Record::from_str(path.clone(), MediaType::TextPlain, "v");
    assert!(ds.written(rec, Err(io::Error::from(io::ErrorKind::PermissionDenied))).is_err());
    assert!(ds.cached(&path).is_none());
    let rec = Record::from_str(path.clone(), MediaType::TextPlain, "v");
    ds.written(rec, Ok(())).unwrap();
    assert!(ds.cached(&path).is_some());
    assert!(ds.deleted(&path, Err(io::Error::from(io::ErrorKind::NotFound))).is_err());
    assert!(ds.cached(&path).is_none());
}

#[test]
fn file_counts() {
    assert_eq!(file_count(true, false, 9), 1);
    assert_eq!(file_count(false, true, 9), 9);
    assert_eq!(file_count(false, false, 9), 0);
}

// === JSON source decisions ===

#[test]
fn content_kinds_follow_media_types() {
    assert_eq!(content_kind(MediaType::TextJson).unwrap(), ContentKind::Json);
    assert_eq!(content_kind(MediaType::CodeRust).unwrap(), ContentKind::Text);
    assert_eq!(content_kind(MediaType::ImagePng).unwrap_err(), "Unsupported media type: image/png");
}

#[test]
fn json_files_become_normalised_json_values() {
    let path = file("/d/a.json");
    let doc = file_document(&path, MediaType::TextJson, "{ \"name\" : \"test\", \"value\": 42 }".to_string()).unwrap();
    assert_eq!(doc.content.len(), 1);
    assert_eq!(doc.content[0].otype, "application/json");
    assert_eq!(doc.content[0].path.to_string(), "root");
    match &doc.content[0].content {
        Value::Json(t) => assert_eq!(t, "{\"name\":\"test\",\"value\":42}"),
        _ => panic!("expected JSON"),
    }
    match file_document(&path, MediaType::TextJson, "{oops".to_string()) {
        Err(ReadError::Custom(m)) => assert!(m.starts_with("JSON parse error: ")),
        _ => panic!("expected a parse error"),
    }
}

#[test]
fn text_files_become_strings() {
    let doc = file_document(&file("/d/a.txt"), MediaType::TextPlain, "Hello, World!".to_string()).unwrap();
    assert_eq!(doc.content[0].content.as_str(), Some("Hello, World!"));
    assert_eq!(doc.content[0].otype, "text/plain");
    assert!(file_document(&file("/d/a.png"), MediaType::ImagePng, String::new()).is_err());
}

#[test]
fn values_as_json_text() {
    assert_eq!(value_json(&Value::Null), "null");
    assert_eq!(value_json(&Value::Bool(true)), "true");
    assert_eq!(value_json(&Value::Int(-7)), "-7");
    assert_eq!(value_json(&Value::String("a\"b".to_string())), "\"a\\\"b\"");
    assert_eq!(value_json(&Value::Json("[1,2]".to_string())), "[1,2]");
}

fn json_doc(path: &Path, value: Value, media_type: MediaType) -> Document {
    let e = Entity::new(FieldPath::parse("root").unwrap(), media_type.as_mime_str(), value);
    Document::new(path.clone(), media_type, vec![e])
}

#[test]
fn json_write_text_pretty_and_compact() {
    let path = file("/d/a.json");
    let doc = json_doc(&path, Value::Json("{\"key\":\"value\"}".to_string()), MediaType::TextJson);
    let compact = JsonFileSource::new();
    assert_eq!(compact.write_text(&doc).unwrap(), "{\"key\":\"value\"}");
    let pretty = JsonFileSource::with_options(JsonFileSourceOptions::new().with_pretty_print(true));
    assert_eq!(pretty.write_text(&doc).unwrap(), "{\n  \"key\": \"value\"\n}");
}

#[test]
fn json_write_text_refusals() {
    let ds = JsonFileSource::new();
    let path = file("/d/a.txt");
    let empty = Document::new(path.clone(), MediaType::TextPlain, vec![]);
    match ds.write_text(&empty) {
        Err(WriteError::Custom(m)) => assert_eq!(m, "Document has no content"),
        _ => panic!("expected a refusal"),
    }
    let not_text = json_doc(&path, Value::Int(3), MediaType::TextPlain);
    match ds.write_text(&not_text) {
        Err(WriteError::Custom(m)) => assert_eq!(m, "Text content must be a string Value"),
        _ => panic!("expected a refusal"),
    }
    let binary = json_doc(&path, Value::Null, MediaType::Binary);
    match ds.write_text(&binary) {
        Err(WriteError::Custom(m)) => assert_eq!(m, "Unsupported media type: application/octet-stream"),
        _ => panic!("expected a refusal"),
    }
}

#[test]
fn json_source_caches_documents() {
    let mut ds = JsonFileSource::new();
    let path = file("/d/n.json");
    let doc = ds.loaded(&path, "/d/n.json", Ok("{\"test\": 123}".to_string())).unwrap();
    assert_eq!(doc.media_type, MediaType::TextJson);
    assert!(ds.cached(&path).is_some());
    ds.deleted(&path, Ok(())).unwrap();
    assert!(ds.cached(&path).is_none());
    let uri = Path::Uri(UriPath::parse("https://example.com").unwrap());
    assert!(ds.full_path(&uri).is_err());
}

// === media types ===

#[test]
fn media_types_from_extensions_and_paths() {
    assert_eq!(MediaType::from_extension(Some("txt")), MediaType::TextPlain);
    assert_eq!(MediaType::from_extension(Some("JSON")), MediaType::TextJson);
    assert_eq!(MediaType::from_extension(None), MediaType::Unknown);
    assert_eq!(MediaType::from_path("/a/b/c.rs"), MediaType::CodeRust);
    assert_eq!(MediaType::from_path("/a/b/noext"), MediaType::Unknown);
    assert_eq!(MediaType::from_mime_str(" Application/JSON "), MediaType::TextJson);
    assert_eq!(MediaType::TextJson.as_mime_str(), "application/json");
    assert_eq!(MediaType::TextJson.format(), Format::Json);
    assert!(MediaType::TextCsv.is_textlike());
    assert!(!MediaType::ImagePng.is_textlike());
    assert_eq!(MediaType::default(), MediaType::Unknown);
}

// === model types ===

#[test]
fn model_types_parse_case_insensitively() {
    assert_eq!(ModelType::parse("BERT"), ModelType::Bert);
    assert_eq!(ModelType::parse("DebertaV2"), ModelType::DebertaV2);
    assert_eq!(ModelType::parse("xlm_roberta").as_str(), "xlm_roberta");
    assert!(ModelType::parse("my-model").is_custom());
    let parsed: ModelType = "bart".parse().unwrap();
    assert_eq!(parsed, ModelType::Bart);
    assert!(ModelType::Bart.is_encoder_decoder());
    assert!(ModelType::Bart.supports_zero_shot());
}

// === entity tags ===

#[test]
fn etags_hash_media_type_and_content() {
    let a = ETag::new(MediaType::TextPlain, "hello");
    let b = ETag::new(MediaType::TextPlain, "hello");
    let c = ETag::new(MediaType::TextJson, "hello");
    assert_eq!(a.as_bytes(), b.as_bytes());
    assert_ne!(a.as_bytes(), c.as_bytes());
    let expected = blake3::hash(b"text/plain::hello");
    assert_eq!(a.as_bytes(), expected.as_bytes());
    assert_eq!(ETag::from_bytes(MediaType::TextPlain, b"hello").as_bytes(), a.as_bytes());
}

// === errors and configuration ===

#[test]
fn codec_errors_describe_themselves() {
    assert_eq!(CodecError::UnsupportedMediaType(MediaType::Pdf).to_string(), "unsupported media type: application/pdf");
    assert!(CodecError::decode("bad").is_decode());
    assert_eq!(CodecError::encode(7).to_string(), "encode error: 7");
}

#[test]
fn config_violations_are_listed() {
    let mut config = LoomConfig::default();
    config.concurrency = 0;
    config.batch_size = 0;
    assert_eq!(config.validate().unwrap_err(), vec![ConfigViolation::Concurrency, ConfigViolation::BatchSize]);
    assert_eq!(LoomConfig::default_concurrency(), 4);
    assert_eq!(LoomConfig::default_batch_size(), 8);
}

#[test]
fn async_run_batch_size_falls_back_to_the_scorer() {
    let config = AsyncRunConfig::default();
    assert_eq!(config.concurrency, 4);
    assert_eq!(config.effective_batch_size(16), 16);
    let config = AsyncRunConfig { concurrency: 2, batch_size: Some(3) };
    assert_eq!(config.effective_batch_size(16), 3);
}

#[test]
fn thresholds_never_fall_as_texts_grow() {
    let config = ScoreConfig::default();
    let mut last = 0;
    for len in 0..500 {
        let t = config.threshold_of(len);
        assert!(t >= last);
        last = t;
    }
    let low = ScoreConfig { threshold: 3, top_k: 1 };
    assert_eq!(low.threshold_of(5), 0);
    let high = ScoreConfig { threshold: u32::MAX - 1, top_k: 1 };
    assert_eq!(high.threshold_of(500), u32::MAX);
}

#[test]
fn options_paths() {
    let o = JsonFileSourceOptions::new();
    assert_eq!(o.path, PathBuf::from("."));
    assert!(!o.pretty_print);
}

#[test]
fn saved_formats_get_their_media_types() {
    assert_eq!(MediaType::for_saved_format(Format::Json), MediaType::TextJson);
    assert_eq!(MediaType::for_saved_format(Format::Yaml), MediaType::TextYaml);
    assert_eq!(MediaType::for_saved_format(Format::Toml), MediaType::TextToml);
    assert_eq!(MediaType::for_saved_format(Format::Csv), MediaType::TextPlain);
}

#[test]
fn sources_default_to_the_current_directory() {
    let fs = FileSystemSource::new();
    assert_eq!(fs.options().path, PathBuf::from("."));
    let js = JsonFileSource::new();
    assert_eq!(js.options().path, PathBuf::from("."));
    assert!(!js.options().pretty_print);
}

#[test]
fn model_type_from_str_lowercases() {
    let m: ModelType = "BERT".parse().unwrap();
    assert!(m == ModelType::Bert);
    let c: ModelType = "MyModel".parse().unwrap();
    assert!(c == ModelType::Custom("mymodel".to_string()));
}

#[test]
fn utf8_failures_convert_into_decode_errors() {
    let bytes = vec![0xffu8, 0xfe];
    let e = std::str::from_utf8(&bytes).unwrap_err();
    let c: CodecError = e.into();
    assert!(c.is_decode());
    match c {
        CodecError::Decode(m) => assert_eq!(m, e.to_string()),
        _ => panic!("expected a decode error"),
    }
    let e = String::from_utf8(bytes).unwrap_err();
    let text = e.to_string();
    let c: CodecError = e.into();
    match c {
        CodecError::Decode(m) => assert_eq!(m, text),
        _ => panic!("expected a decode error"),
    }
}

#[test]
fn mime_names_read_back() {
    for m in [MediaType::TextPlain, MediaType::TextJson, MediaType::ImagePng, MediaType::Pdf, MediaType::Binary] {
        assert_eq!(MediaType::from_mime_str(m.as_mime_str()), m);
    }
    assert_eq!(MediaType::from_mime_str(MediaType::Text.as_mime_str()), MediaType::TextPlain);
    assert_eq!(MediaType::from_mime_str(MediaType::Unknown.as_mime_str()), MediaType::Binary);
    assert_eq!(MediaType::from_mime_str(MediaType::CodeRust.as_mime_str()), MediaType::Text);
    assert_eq!(MediaType::from_mime_str(MediaType::CodeSql.as_mime_str()), MediaType::Unknown);
    assert_eq!(MediaType::from_mime_str("  Application/JSON "), MediaType::from_mime_str("application/json"));
}

#[test]
fn path_setters_store_the_named_path_last_call_wins() {
    use_local_builder();
}

fn use_local_builder() {
    let c = loom::model::LocalModelConfigBuilder::new()
        .weights("/a/model.ot")
        .weights(String::from("/b/model.ot"))
        .config(PathBuf::from("/c/config.json"))
        .build();
    assert_eq!(c.weights, Some(PathBuf::from("/b/model.ot")));
    assert_eq!(c.config, Some(PathBuf::from("/c/config.json")));
    assert_eq!(c.vocab, None);
    let o = JsonFileSourceOptions::new().with_path("/custom/path").with_pretty_print(true);
    assert_eq!(o.path, PathBuf::from("/custom/path"));
    assert!(o.pretty_print);
}

#[test]
fn model_names_read_back() {
    for m in [ModelType::Bart, ModelType::XLMRoberta, ModelType::DebertaV2, ModelType::GPTNeo, ModelType::M2M100] {
        let back: ModelType = m.as_str().parse().unwrap();
        assert!(back == m);
    }
    assert_eq!(ModelType::XLMRoberta.as_str(), "xlm_roberta");
}

#[test]
fn json_strings_are_escaped() {
    let v = Value::String("a\"b\\c\n\t\u{1}é".to_string());
    assert_eq!(value_json(&v), "\"a\\\"b\\\\c\\n\\t\\u0001é\"");
}

#[test]
fn file_path_is_empty_exactly_without_components() {
    for t in ["", "/", ".", "./", "a", "a/b", "//x/", ".."] {
        let p = FilePath::parse(t);
        assert_eq!(p.is_empty(), t.is_empty());
        assert_eq!(p.is_empty(), p.len() == 0);
    }
}

#[test]
fn full_path_keeps_absolute_paths_and_joins_relative_ones() {
    let ds = FileSystemSource::with_options(loom::data_source::FileSystemSourceOptions::new().with_path("/base"));
    assert_eq!(ds.full_path(&file("/abs/x.txt")).unwrap(), PathBuf::from("/abs/x.txt"));
    assert_eq!(ds.full_path(&file("rel/x.txt")).unwrap(), PathBuf::from("/base").join("rel/x.txt"));
}
