//! A model configuration that is either local or remote, and its builder.

use vstd::prelude::*;
use super::local_config::{LocalModelConfig, LocalModelConfigBuilder};
use super::model_type::ModelType;
use super::remote_config::{RemoteModelConfig, RemoteModelConfigBuilder};

verus! {

/// Configuration for a model, either local or remote.
#[derive(Debug, Clone)]
pub enum ModelConfig {
    Local(LocalModelConfig),
    Remote(RemoteModelConfig),
}

impl ModelConfig {
    /// Returns true if this is a local model configuration.
    pub fn is_local(&self) -> (b: bool)
        ensures
            b == (self is Local),
    {
        match self {
            ModelConfig::Local(_) => true,
            ModelConfig::Remote(_) => false,
        }
    }

    /// Returns true if this is a remote model configuration.
    pub fn is_remote(&self) -> (b: bool)
        ensures
            b == (self is Remote),
    {
        match self {
            ModelConfig::Local(_) => false,
            ModelConfig::Remote(_) => true,
        }
    }

    /// The model type of either kind of configuration.
    pub open spec fn model_type_spec(&self) -> ModelType {
        match self {
            ModelConfig::Local(l) => l.model,
            ModelConfig::Remote(r) => r.model,
        }
    }

    /// Returns the model type for this configuration.
    pub fn model_type(&self) -> (m: &ModelType)
        ensures
            *m == self.model_type_spec(),
    {
        match self {
            ModelConfig::Local(local) => &local.model,
            ModelConfig::Remote(remote) => &remote.model,
        }
    }
}

impl Default for ModelConfig {
    fn default() -> (r: Self)
        ensures
            r matches ModelConfig::Remote(c) && c.model == ModelType::Bart && c.lower_case is None
                && c.strip_accents is None && c.add_prefix_space is None,
    {
        ModelConfig::Remote(RemoteModelConfig::default())
    }
}

impl From<LocalModelConfig> for ModelConfig {
    fn from(config: LocalModelConfig) -> (r: Self) {
        ModelConfig::Local(config)
    }
}

impl vstd::std_specs::convert::FromSpecImpl<LocalModelConfig> for ModelConfig {
    open spec fn obeys_from_spec() -> bool {
        true
    }

    open spec fn from_spec(config: LocalModelConfig) -> ModelConfig {
        ModelConfig::Local(config)
    }
}

impl From<RemoteModelConfig> for ModelConfig {
    fn from(config: RemoteModelConfig) -> (r: Self) {
        ModelConfig::Remote(config)
    }
}

impl vstd::std_specs::convert::FromSpecImpl<RemoteModelConfig> for ModelConfig {
    open spec fn obeys_from_spec() -> bool {
        true
    }

    open spec fn from_spec(config: RemoteModelConfig) -> ModelConfig {
        ModelConfig::Remote(config)
    }
}

/// Builder for creating model configurations.
#[derive(Debug, Clone)]
pub struct ModelConfigBuilder {
    model: ModelType,
    lower_case: Option<bool>,
    strip_accents: Option<bool>,
    add_prefix_space: Option<bool>,
}

/// The settings a `ModelConfigBuilder` holds: those shared by local and
/// remote configurations.
pub struct ModelSettings {
    pub model: ModelType,
    pub lower_case: Option<bool>,
    pub strip_accents: Option<bool>,
    pub add_prefix_space: Option<bool>,
}

impl View for ModelConfigBuilder {
    type V = ModelSettings;

    closed spec fn view(&self) -> ModelSettings {
        ModelSettings {
            model: self.model,
            lower_case: self.lower_case,
            strip_accents: self.strip_accents,
            add_prefix_space: self.add_prefix_space,
        }
    }
}

impl Default for ModelConfigBuilder {
    fn default() -> (r: Self)
        ensures
            r@ == (ModelSettings {
                model: ModelType::Bart,
                lower_case: None,
                strip_accents: None,
                add_prefix_space: None,
            }),
    {
        ModelConfigBuilder {
            model: ModelType::default(),
            lower_case: None,
            strip_accents: None,
            add_prefix_space: None,
        }
    }
}

impl ModelConfigBuilder {
    /// Create a new model configuration builder.
    pub fn new() -> (r: Self)
        ensures
            r@ == (ModelSettings {
                model: ModelType::Bart,
                lower_case: None,
                strip_accents: None,
                add_prefix_space: None,
            }),
    {
        Self::default()
    }

    /// Set the model architecture type.
    pub fn model(self, model: ModelType) -> (r: Self)
        ensures
            r@ == (ModelSettings { model: model, ..self@ }),
    {
        ModelConfigBuilder { model, ..self }
    }

    /// Set whether to lowercase all input text.
    pub fn lower_case(self, lower_case: bool) -> (r: Self)
        ensures
            r@ == (ModelSettings { lower_case: Some(lower_case), ..self@ }),
    {
        ModelConfigBuilder { lower_case: Some(lower_case), ..self }
    }

    /// Set whether to strip accents from input text.
    pub fn strip_accents(self, strip_accents: bool) -> (r: Self)
        ensures
            r@ == (ModelSettings { strip_accents: Some(strip_accents), ..self@ }),
    {
        ModelConfigBuilder { strip_accents: Some(strip_accents), ..self }
    }

    /// Set whether to add a prefix space to input text.
    pub fn add_prefix_space(self, add_prefix_space: bool) -> (r: Self)
        ensures
            r@ == (ModelSettings { add_prefix_space: Some(add_prefix_space), ..self@ }),
    {
        ModelConfigBuilder { add_prefix_space: Some(add_prefix_space), ..self }
    }

    /// Convert to a local model configuration builder carrying the settings
    /// made so far, with no files named yet.
    pub fn local(self) -> (r: LocalModelConfigBuilder)
        ensures
            r@ == (LocalModelConfig {
                model: self@.model,
                weights: None,
                config: None,
                vocab: None,
                merges: None,
                lower_case: self@.lower_case,
                strip_accents: self@.strip_accents,
                add_prefix_space: self@.add_prefix_space,
            }),
    {
        let mut builder = LocalModelConfigBuilder::new().model(self.model);
        if let Some(lower_case) = self.lower_case {
            builder = builder.lower_case(lower_case);
        }
        if let Some(strip_accents) = self.strip_accents {
            builder = builder.strip_accents(strip_accents);
        }
        if let Some(add_prefix_space) = self.add_prefix_space {
            builder = builder.add_prefix_space(add_prefix_space);
        }
        builder
    }

    /// Convert to a remote model configuration builder carrying the settings
    /// made so far.
    pub fn remote(self) -> (r: RemoteModelConfigBuilder)
        ensures
            r@ == (RemoteModelConfig {
                model: self@.model,
                lower_case: self@.lower_case,
                strip_accents: self@.strip_accents,
                add_prefix_space: self@.add_prefix_space,
            }),
    {
        let mut builder = RemoteModelConfigBuilder::new().model(self.model);
        if let Some(lower_case) = self.lower_case {
            builder = builder.lower_case(lower_case);
        }
        if let Some(strip_accents) = self.strip_accents {
            builder = builder.strip_accents(strip_accents);
        }
        if let Some(add_prefix_space) = self.add_prefix_space {
            builder = builder.add_prefix_space(add_prefix_space);
        }
        builder
    }
}

} // verus!
