//! Configuration of a model fetched from its default remote resources.

use vstd::prelude::*;
use super::model_type::ModelType;

verus! {

/// Configuration for a remotely fetched model (uses default resources).
#[derive(Debug, Clone)]
pub struct RemoteModelConfig {
    /// Model architecture type
    pub model: ModelType,
    /// Whether to lowercase all input text
    pub lower_case: Option<bool>,
    /// Whether to strip accents from input text
    pub strip_accents: Option<bool>,
    /// Whether to add a prefix space to input text
    pub add_prefix_space: Option<bool>,
}

impl Default for RemoteModelConfig {
    fn default() -> (r: Self)
        ensures
            r.model == ModelType::Bart,
            r.lower_case is None,
            r.strip_accents is None,
            r.add_prefix_space is None,
    {
        RemoteModelConfig {
            model: ModelType::Bart,
            lower_case: None,
            strip_accents: None,
            add_prefix_space: None,
        }
    }
}

/// Builder for creating remote model configurations.
#[derive(Debug, Clone)]
pub struct RemoteModelConfigBuilder {
    model: ModelType,
    lower_case: Option<bool>,
    strip_accents: Option<bool>,
    add_prefix_space: Option<bool>,
}

impl View for RemoteModelConfigBuilder {
    type V = RemoteModelConfig;

    /// The configuration the builder would build now.
    closed spec fn view(&self) -> RemoteModelConfig {
        RemoteModelConfig {
            model: self.model,
            lower_case: self.lower_case,
            strip_accents: self.strip_accents,
            add_prefix_space: self.add_prefix_space,
        }
    }
}

impl Default for RemoteModelConfigBuilder {
    fn default() -> (r: Self)
        ensures
            r@ == (RemoteModelConfig {
                model: ModelType::Bart,
                lower_case: None,
                strip_accents: None,
                add_prefix_space: None,
            }),
    {
        RemoteModelConfigBuilder {
            model: ModelType::Bart,
            lower_case: None,
            strip_accents: None,
            add_prefix_space: None,
        }
    }
}

impl RemoteModelConfigBuilder {
    /// Create a new remote model configuration builder.
    pub fn new() -> (r: Self)
        ensures
            r@ == (RemoteModelConfig {
                model: ModelType::Bart,
                lower_case: None,
                strip_accents: None,
                add_prefix_space: None,
            }),
    {
        Self::default()
    }

    /// Set the model architecture type.
    pub fn model(self, model: ModelType) -> (r: Self)
        ensures
            r@ == (RemoteModelConfig { model: model, ..self@ }),
    {
        RemoteModelConfigBuilder { model, ..self }
    }

    /// Set whether to lowercase all input text.
    pub fn lower_case(self, lower_case: bool) -> (r: Self)
        ensures
            r@ == (RemoteModelConfig { lower_case: Some(lower_case), ..self@ }),
    {
        RemoteModelConfigBuilder { lower_case: Some(lower_case), ..self }
    }

    /// Set whether to strip accents from input text.
    pub fn strip_accents(self, strip_accents: bool) -> (r: Self)
        ensures
            r@ == (RemoteModelConfig { strip_accents: Some(strip_accents), ..self@ }),
    {
        RemoteModelConfigBuilder { strip_accents: Some(strip_accents), ..self }
    }

    /// Set whether to add a prefix space to input text.
    pub fn add_prefix_space(self, add_prefix_space: bool) -> (r: Self)
        ensures
            r@ == (RemoteModelConfig { add_prefix_space: Some(add_prefix_space), ..self@ }),
    {
        RemoteModelConfigBuilder { add_prefix_space: Some(add_prefix_space), ..self }
    }

    /// Build the remote model configuration.
    pub fn build(self) -> (r: RemoteModelConfig)
        ensures
            r == self@,
    {
        RemoteModelConfig {
            model: self.model,
            lower_case: self.lower_case,
            strip_accents: self.strip_accents,
            add_prefix_space: self.add_prefix_space,
        }
    }
}

} // verus!
