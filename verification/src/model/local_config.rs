//! Configuration of a model stored in local files.

use vstd::prelude::*;
use std::path::PathBuf;
use super::model_type::ModelType;
use crate::os_path::IntoPath;

verus! {

/// Configuration for a locally stored model.
#[derive(Debug, Clone)]
pub struct LocalModelConfig {
    /// Model architecture type
    pub model: ModelType,
    /// Path to model weights file
    pub weights: Option<PathBuf>,
    /// Path to model configuration file
    pub config: Option<PathBuf>,
    /// Path to vocabulary file
    pub vocab: Option<PathBuf>,
    /// Path to merges file (required for some tokenizers like RoBERTa)
    pub merges: Option<PathBuf>,
    /// Whether to lowercase all input text
    pub lower_case: Option<bool>,
    /// Whether to strip accents from input text
    pub strip_accents: Option<bool>,
    /// Whether to add a prefix space to input text
    pub add_prefix_space: Option<bool>,
}

impl LocalModelConfig {
    /// The configuration with the given architecture and nothing else set.
    pub open spec fn empty_spec(model: ModelType) -> LocalModelConfig {
        LocalModelConfig {
            model: model,
            weights: None,
            config: None,
            vocab: None,
            merges: None,
            lower_case: None,
            strip_accents: None,
            add_prefix_space: None,
        }
    }

    /// Whether weights, configuration and vocabulary are all named, so that
    /// local resources (not the defaults for the model type) are used.
    pub open spec fn has_local_resources_spec(&self) -> bool {
        self.weights is Some && self.config is Some && self.vocab is Some
    }

    /// Whether weights, configuration and vocabulary files are all named.
    pub fn has_local_resources(&self) -> (b: bool)
        ensures
            b == self.has_local_resources_spec(),
    {
        self.weights.is_some() && self.config.is_some() && self.vocab.is_some()
    }
}

impl Default for LocalModelConfig {
    fn default() -> (r: Self)
        ensures
            r == LocalModelConfig::empty_spec(ModelType::Bart),
    {
        LocalModelConfig {
            model: ModelType::default(),
            weights: None,
            config: None,
            vocab: None,
            merges: None,
            lower_case: None,
            strip_accents: None,
            add_prefix_space: None,
        }
    }
}

/// Builder for creating local model configurations.
#[derive(Debug, Clone)]
pub struct LocalModelConfigBuilder {
    model: ModelType,
    weights: Option<PathBuf>,
    config: Option<PathBuf>,
    vocab: Option<PathBuf>,
    merges: Option<PathBuf>,
    lower_case: Option<bool>,
    strip_accents: Option<bool>,
    add_prefix_space: Option<bool>,
}

impl View for LocalModelConfigBuilder {
    type V = LocalModelConfig;

    /// The configuration the builder would build now.
    closed spec fn view(&self) -> LocalModelConfig {
        LocalModelConfig {
            model: self.model,
            weights: self.weights,
            config: self.config,
            vocab: self.vocab,
            merges: self.merges,
            lower_case: self.lower_case,
            strip_accents: self.strip_accents,
            add_prefix_space: self.add_prefix_space,
        }
    }
}

impl Default for LocalModelConfigBuilder {
    fn default() -> (r: Self)
        ensures
            r@ == LocalModelConfig::empty_spec(ModelType::Bart),
    {
        LocalModelConfigBuilder {
            model: ModelType::default(),
            weights: None,
            config: None,
            vocab: None,
            merges: None,
            lower_case: None,
            strip_accents: None,
            add_prefix_space: None,
        }
    }
}

impl LocalModelConfigBuilder {
    /// Create a new local model configuration builder.
    pub fn new() -> (r: Self)
        ensures
            r@ == LocalModelConfig::empty_spec(ModelType::Bart),
    {
        Self::default()
    }

    /// Set the model architecture type.
    pub fn model(self, model: ModelType) -> (r: Self)
        ensures
            r@ == (LocalModelConfig { model: model, ..self@ }),
    {
        LocalModelConfigBuilder { model, ..self }
    }

    /// Set the path to the model weights file; text names the path `PathBuf::from`
    /// makes of it.
    pub fn weights<P: IntoPath>(self, path: P) -> (r: Self)
        ensures
            r@ == (LocalModelConfig { weights: Some(path.path_spec()), ..self@ }),
    {
        LocalModelConfigBuilder { weights: Some(path.into_path()), ..self }
    }

    /// Set the path to the model configuration file; text names the path `PathBuf::from`
    /// makes of it.
    pub fn config<P: IntoPath>(self, path: P) -> (r: Self)
        ensures
            r@ == (LocalModelConfig { config: Some(path.path_spec()), ..self@ }),
    {
        LocalModelConfigBuilder { config: Some(path.into_path()), ..self }
    }

    /// Set the path to the vocabulary file; text names the path `PathBuf::from`
    /// makes of it.
    pub fn vocab<P: IntoPath>(self, path: P) -> (r: Self)
        ensures
            r@ == (LocalModelConfig { vocab: Some(path.path_spec()), ..self@ }),
    {
        LocalModelConfigBuilder { vocab: Some(path.into_path()), ..self }
    }

    /// Set the path to the merges file (optional, for some tokenizers); text names the path `PathBuf::from`
    /// makes of it.
    pub fn merges<P: IntoPath>(self, path: P) -> (r: Self)
        ensures
            r@ == (LocalModelConfig { merges: Some(path.path_spec()), ..self@ }),
    {
        LocalModelConfigBuilder { merges: Some(path.into_path()), ..self }
    }

    /// Set whether to lowercase all input text.
    pub fn lower_case(self, lower_case: bool) -> (r: Self)
        ensures
            r@ == (LocalModelConfig { lower_case: Some(lower_case), ..self@ }),
    {
        LocalModelConfigBuilder { lower_case: Some(lower_case), ..self }
    }

    /// Set whether to strip accents from input text.
    pub fn strip_accents(self, strip_accents: bool) -> (r: Self)
        ensures
            r@ == (LocalModelConfig { strip_accents: Some(strip_accents), ..self@ }),
    {
        LocalModelConfigBuilder { strip_accents: Some(strip_accents), ..self }
    }

    /// Set whether to add a prefix space to input text.
    pub fn add_prefix_space(self, add_prefix_space: bool) -> (r: Self)
        ensures
            r@ == (LocalModelConfig { add_prefix_space: Some(add_prefix_space), ..self@ }),
    {
        LocalModelConfigBuilder { add_prefix_space: Some(add_prefix_space), ..self }
    }

    /// Build the local model configuration.
    pub fn build(self) -> (r: LocalModelConfig)
        ensures
            r == self@,
    {
        LocalModelConfig {
            model: self.model,
            weights: self.weights,
            config: self.config,
            vocab: self.vocab,
            merges: self.merges,
            lower_case: self.lower_case,
            strip_accents: self.strip_accents,
            add_prefix_space: self.add_prefix_space,
        }
    }
}

} // verus!
