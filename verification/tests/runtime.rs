use std::path::PathBuf;

use loom::codec::{Codec, TextCodec};
use loom::config::LoomConfig;
use loom::data_source::{
    DataSource, Document, Entity, FileSystemSourceOptions, JsonFileSource, JsonFileSourceOptions,
    MemorySource, Record, Value,
};
use loom::eval::{Decision, Difficulty, Sample, SampleDataset, ScoreConfig};
use loom::media_type::MediaType;
use loom::model::{
    LocalModelConfigBuilder, ModelConfig, ModelConfigBuilder, ModelType, RemoteModelConfigBuilder,
};
use loom::path::{FieldPath, FilePath, Path, UriPath};

fn hundredths(t: u32) -> f32 {
    t as f32 / 100.0
}

// === text codec ===

#[test]
fn test_decode_text() {
    let codec = TextCodec::new();
    let path = Path::File(FilePath::parse("/test.txt"));
    let record = Record::from_str(path.clone(), MediaType::TextPlain, "hello world");

    let document = codec.decode(record).unwrap();

    assert_eq!(document.media_type, MediaType::TextPlain);
    assert_eq!(document.content[0].content.as_str(), Some("hello world"));
}

#[test]
fn test_encode_text() {
    let codec = TextCodec::new();
    let path = Path::File(FilePath::parse("/test.txt"));
    let entity = Entity::new(
        FieldPath::parse("root").unwrap(),
        "text/plain",
        Value::String("hello world".to_string()),
    );
    let document = Document::new(path.clone(), MediaType::TextPlain, vec![entity]);

    let record = codec.encode(document).unwrap();

    assert_eq!(record.content_str().unwrap(), "hello world");
}

#[test]
fn text_codec_test_roundtrip() {
    let codec = TextCodec::new();
    let path = Path::File(FilePath::parse("/test.txt"));
    let first = Record::from_str(path, MediaType::TextPlain, "test content");

    let document = codec.decode(first.clone()).unwrap();
    let record = codec.encode(document).unwrap();

    assert_eq!(first.content, record.content);
}

#[test]
fn test_unsupported_media_type() {
    let codec = TextCodec::new();
    let path = Path::File(FilePath::parse("/test.bin"));
    let record = Record::new(path, MediaType::Binary, vec![0, 1, 2, 3]);

    let result = codec.decode(record);
    assert!(result.is_err());
    assert!(result.unwrap_err().is_unsupported());
}

// === configuration ===

#[test]
fn default_config_has_expected_values() {
    let config = LoomConfig::default();
    assert_eq!(config.concurrency, 4);
    assert_eq!(config.batch_size, 8);
    assert!(!config.strict);
    assert!(config.output.is_none());
}

#[test]
fn default_config_validates() {
    let config = LoomConfig::default();
    assert!(config.validate().is_ok());
}

#[test]
fn invalid_concurrency_fails_validation() {
    let mut config = LoomConfig::default();
    config.concurrency = 0;
    assert!(config.validate().is_err());
}

#[test]
fn invalid_batch_size_fails_validation() {
    let mut config = LoomConfig::default();
    config.batch_size = 0;
    assert!(config.validate().is_err());
}

// === data sources ===

#[test]
fn file_system_source_test_options_builder() {
    let options = FileSystemSourceOptions::new().with_path("/custom/path");

    assert_eq!(options.path, PathBuf::from("/custom/path"));
}

fn json_test_options() -> JsonFileSourceOptions {
    JsonFileSourceOptions::new()
        .with_path(PathBuf::from("/tmp/loom_json_source_test"))
        .with_pretty_print(true)
}

#[test]
fn json_source_test_find_one_not_found() {
    let mut ds = JsonFileSource::with_options(json_test_options());
    let path = Path::File(FilePath::parse("/nonexistent/file.txt"));

    // nothing is cached, so the file is read: it does not exist
    assert!(ds.cached(&path).is_none());
    let full = ds.full_path(&path).unwrap();
    let read: std::io::Result<String> = Err(std::io::Error::from(std::io::ErrorKind::NotFound));
    let result = ds.loaded(&path, full.to_str().unwrap(), read);
    assert!(result.is_err());
    assert!(result.unwrap_err().is_io());
}

#[test]
fn json_source_test_options_builder() {
    let options = JsonFileSourceOptions::new()
        .with_path("/custom/path")
        .with_pretty_print(true);

    assert_eq!(options.path, PathBuf::from("/custom/path"));
    assert!(options.pretty_print);
}

// === score thresholds ===

#[test]
fn threshold_short_text_lowers_threshold() {
    let config = ScoreConfig::default();
    let result = hundredths(config.threshold_of(10));
    assert!((result - 0.70).abs() < f32::EPSILON, "Expected 0.70, got {}", result);
}

#[test]
fn threshold_medium_text_unchanged() {
    let config = ScoreConfig::default();
    let result = hundredths(config.threshold_of(100));
    assert!((result - 0.75).abs() < f32::EPSILON, "Expected 0.75, got {}", result);
}

#[test]
fn threshold_long_text_raises_threshold() {
    let config = ScoreConfig::default();
    let result = hundredths(config.threshold_of(250));
    assert!((result - 0.80).abs() < f32::EPSILON, "Expected 0.80, got {}", result);
}

#[test]
fn threshold_boundary_20_chars() {
    let config = ScoreConfig::default();
    let result = hundredths(config.threshold_of(20));
    assert!((result - 0.70).abs() < f32::EPSILON, "20 chars should be short, expected 0.70, got {}", result);
}

#[test]
fn threshold_boundary_21_chars() {
    let config = ScoreConfig::default();
    let result = hundredths(config.threshold_of(21));
    assert!((result - 0.75).abs() < f32::EPSILON, "21 chars should be medium, expected 0.75, got {}", result);
}

#[test]
fn threshold_boundary_200_chars() {
    let config = ScoreConfig::default();
    let result = hundredths(config.threshold_of(200));
    assert!((result - 0.75).abs() < f32::EPSILON, "200 chars should be medium, expected 0.75, got {}", result);
}

#[test]
fn threshold_boundary_201_chars() {
    let config = ScoreConfig::default();
    let result = hundredths(config.threshold_of(201));
    assert!((result - 0.80).abs() < f32::EPSILON, "201 chars should be long, expected 0.80, got {}", result);
}

#[test]
fn threshold_empty_text() {
    let config = ScoreConfig::default();
    let result = hundredths(config.threshold_of(0));
    assert!((result - 0.70).abs() < f32::EPSILON, "Empty text should be short, expected 0.70, got {}", result);
}

// === model configuration ===

#[test]
fn builder_local_creates_local_builder() {
    let config = ModelConfigBuilder::new()
        .model(ModelType::Bert)
        .local()
        .weights("/path/to/model.ot")
        .config("/path/to/config.json")
        .vocab("/path/to/vocab.txt")
        .build();
    assert_eq!(config.model, ModelType::Bert);
}

#[test]
fn builder_remote_creates_remote_builder() {
    let config = ModelConfigBuilder::new().model(ModelType::Bert).remote().build();
    assert_eq!(config.model, ModelType::Bert);
}

#[test]
fn local_config_converts_to_model_config() {
    let local = LocalModelConfigBuilder::new()
        .weights("/path/to/model.ot")
        .config("/path/to/config.json")
        .vocab("/path/to/vocab.txt")
        .build();
    let config: ModelConfig = local.into();
    assert!(matches!(config, ModelConfig::Local(_)));
}

#[test]
fn remote_config_converts_to_model_config() {
    let remote = RemoteModelConfigBuilder::new().build();
    let config: ModelConfig = remote.into();
    assert!(matches!(config, ModelConfig::Remote(_)));
}

#[test]
fn default_model_type_is_bart() {
    let config = ModelConfigBuilder::new().remote().build();
    assert_eq!(config.model, ModelType::Bart);
}

// === paths ===

#[test]
fn test_parse_absolute_path() {
    let path = FilePath::parse("/home/user/file.txt");
    assert_eq!(path.to_string(), "/home/user/file.txt");
}

#[test]
fn test_parse_relative_path() {
    let path = FilePath::parse("src/main.rs");
    assert_eq!(path.to_string(), "src/main.rs");
}

#[test]
fn test_deref() {
    let path = FilePath::parse("/home/user/file.txt");
    assert_eq!(path.file_name().unwrap(), "file.txt");
}

#[test]
fn test_display() {
    let path = FilePath::parse("./relative/path");
    assert_eq!(path.to_string(), "./relative/path");
}

#[test]
fn test_path_macro_file() {
    let path = Path::File(FilePath::parse("/home/user/file.txt"));
    assert!(path.is_file());
    assert_eq!(path.to_string(), "/home/user/file.txt");
}

#[test]
fn test_path_macro_uri() {
    let path = Path::Uri(UriPath::parse("https://example.com/path").expect("invalid URI"));
    assert!(path.is_uri());
    assert_eq!(path.to_string(), "https://example.com/path");
}

#[test]
fn test_path_macro_field() {
    let path = Path::Field(FieldPath::parse("object.field[0]").expect("invalid field path"));
    assert!(path.is_field());
    assert_eq!(path.to_string(), "object.field[0]");
}

#[test]
fn test_path_is_file() {
    let path = Path::File(FilePath::parse("/home/user/file.txt"));
    assert!(path.is_file());
    assert!(!path.is_uri());
    assert!(!path.is_field());
}

#[test]
fn test_path_is_uri() {
    let path = Path::Uri(UriPath::parse("https://example.com").unwrap());
    assert!(!path.is_file());
    assert!(path.is_uri());
    assert!(!path.is_field());
}

#[test]
fn test_path_is_field() {
    let path = Path::Field(FieldPath::parse("object.field").unwrap());
    assert!(!path.is_file());
    assert!(!path.is_uri());
    assert!(path.is_field());
}

#[test]
fn test_path_display_file() {
    let path = Path::File(FilePath::parse("/home/user/file.txt"));
    assert_eq!(path.to_string(), "/home/user/file.txt");
}

#[test]
fn test_path_display_field() {
    let path = Path::Field(FieldPath::parse("object.field[0]").unwrap());
    assert_eq!(path.to_string(), "object.field[0]");
}

// === datasets ===

fn sample(id: &str, text: &str, labels: &[&str], category: &str) -> Sample {
    Sample {
        id: id.to_string(),
        text: text.to_string(),
        context: None,
        expected_decision: Decision::Accept,
        expected_labels: labels.iter().map(|l| l.to_string()).collect(),
        primary_category: category.to_string(),
        difficulty: Difficulty::Easy,
        notes: None,
        metadata: None,
    }
}

#[test]
fn dataset_new_creates_empty() {
    let dataset = SampleDataset::new();
    assert_eq!(dataset.version, "1.0.0");
    assert!(dataset.samples.is_empty());
}

#[test]
fn dataset_validate_catches_duplicate_ids() {
    let mut dataset = SampleDataset::new();
    dataset.samples.push(sample("test-001", "Hello", &["positive"], "emotional"));
    dataset.samples.push(sample("test-001", "World", &["positive"], "emotional"));

    let errors = dataset.validate();
    assert_eq!(errors.len(), 1);
    assert!(errors[0].message.contains("Duplicate"));
}

#[test]
fn dataset_validate_catches_empty_text() {
    let mut dataset = SampleDataset::new();
    dataset.samples.push(sample("test-001", "  ", &["positive"], "emotional"));

    let errors = dataset.validate();
    assert!(errors.iter().any(|e| e.message.contains("Empty text")));
}

#[test]
fn dataset_validate_catches_invalid_labels() {
    let mut dataset = SampleDataset::new();
    dataset.samples.push(sample("test-001", "Hello", &["NotARealLabel"], "emotional"));

    let valid_labels = vec!["positive".to_string(), "negative".to_string()];
    let errors = dataset.validate_with_labels(Some(&valid_labels));
    assert!(errors.iter().any(|e| e.message.contains("Invalid label")));
}

#[test]
fn dataset_validate_catches_invalid_categories() {
    let mut dataset = SampleDataset::new();
    dataset.samples.push(sample("test-001", "Hello", &["positive"], "unknown_category"));

    let valid_categories = vec!["sentiment".to_string(), "emotion".to_string()];
    let errors = dataset.validate_with_config(Some(&valid_categories), None);
    assert!(errors.iter().any(|e| e.message.contains("Invalid category")));
}

#[test]
fn json_source_test_delete_not_found() {
    let mut ds = JsonFileSource::with_options(json_test_options());
    let path = Path::File(FilePath::parse("/nonexistent/file.json"));

    // removing a file that is not there fails with the I/O error
    let remove: std::io::Result<()> = Err(std::io::Error::from(std::io::ErrorKind::NotFound));
    let result = ds.deleted(&path, remove);
    assert!(result.is_err());
}

// === memory source ===

fn make_record(path: &Path) -> Record {
    Record::from_str(path.clone(), MediaType::TextPlain, "hello")
}

fn same_record(a: &Record, b: &Record) -> bool {
    a.id() == b.id() && a.media_type == b.media_type && a.content == b.content
}

#[test]
fn test_create_and_find_one() {
    let mut ds = MemorySource::new();
    let path = Path::File(FilePath::parse("/test/file.txt"));
    let record = make_record(&path);

    ds.create(record.clone()).unwrap();
    let read_record = ds.find_one(&path).unwrap();

    assert!(same_record(&read_record, &record));
}

#[test]
fn memory_source_test_exists() {
    let mut ds = MemorySource::new();
    let path = Path::File(FilePath::parse("/test/file.txt"));
    let record = make_record(&path);

    assert!(!ds.path_exists(&path).unwrap());
    ds.create(record).unwrap();
    assert!(ds.path_exists(&path).unwrap());
}

#[test]
fn test_count() {
    let mut ds = MemorySource::new();
    let path1 = Path::File(FilePath::parse("/test/file1.txt"));
    let path2 = Path::File(FilePath::parse("/test/file2.txt"));
    let path3 = Path::File(FilePath::parse("/other/file.txt"));

    ds.create(make_record(&path1)).unwrap();
    ds.create(make_record(&path2)).unwrap();
    ds.create(make_record(&path3)).unwrap();

    let test_path = Path::File(FilePath::parse("/test"));
    assert_eq!(ds.count(&test_path).unwrap(), 2);
}

#[test]
fn test_find() {
    let mut ds = MemorySource::new();
    let path1 = Path::File(FilePath::parse("/test/file1.txt"));
    let path2 = Path::File(FilePath::parse("/test/file2.txt"));
    let path3 = Path::File(FilePath::parse("/other/file.txt"));

    ds.create(make_record(&path1)).unwrap();
    ds.create(make_record(&path2)).unwrap();
    ds.create(make_record(&path3)).unwrap();

    let test_path = Path::File(FilePath::parse("/test"));
    let results = ds.find(&test_path).unwrap();
    assert_eq!(results.len(), 2);
}

#[test]
fn memory_source_test_create_duplicate_fails() {
    let mut ds = MemorySource::new();
    let path = Path::File(FilePath::parse("/test/file.txt"));
    let record = make_record(&path);

    ds.create(record.clone()).unwrap();
    let result = ds.create(record);
    assert!(result.is_err());
}

#[test]
fn memory_source_test_update() {
    let mut ds = MemorySource::new();
    let path = Path::File(FilePath::parse("/test/file.txt"));
    let record = make_record(&path);

    ds.create(record.clone()).unwrap();
    ds.update(record).unwrap();
}

#[test]
fn memory_source_test_update_not_found() {
    let mut ds = MemorySource::new();
    let path = Path::File(FilePath::parse("/test/file.txt"));
    let record = make_record(&path);

    let result = ds.update(record);
    assert!(result.is_err());
}

#[test]
fn memory_source_test_upsert() {
    let mut ds = MemorySource::new();
    let path = Path::File(FilePath::parse("/test/file.txt"));
    let record = make_record(&path);

    ds.upsert(record.clone()).unwrap();
    assert!(ds.path_exists(&path).unwrap());

    ds.upsert(record).unwrap();
    assert!(ds.path_exists(&path).unwrap());
}

#[test]
fn memory_source_test_delete() {
    let mut ds = MemorySource::new();
    let path = Path::File(FilePath::parse("/test/file.txt"));
    let record = make_record(&path);

    ds.create(record).unwrap();
    assert!(ds.path_exists(&path).unwrap());

    ds.delete(&path).unwrap();
    assert!(!ds.path_exists(&path).unwrap());
}

#[test]
fn memory_source_test_delete_not_found() {
    let mut ds = MemorySource::new();
    let path = Path::File(FilePath::parse("/nonexistent"));
    let result = ds.delete(&path);
    assert!(result.is_err());
}

#[test]
fn memory_source_test_find_one_not_found() {
    let ds = MemorySource::new();
    let path = Path::File(FilePath::parse("/nonexistent"));
    let result = ds.find_one(&path);
    assert!(result.is_err());
    assert!(result.unwrap_err().is_custom());
}
