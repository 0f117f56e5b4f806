//! Model configuration: architecture types and local/remote model settings.

pub mod config;
pub mod local_config;
pub mod model_type;
pub mod remote_config;

pub use config::{ModelConfig, ModelConfigBuilder, ModelSettings};
pub use local_config::{LocalModelConfig, LocalModelConfigBuilder};
pub use model_type::ModelType;
pub use remote_config::{RemoteModelConfig, RemoteModelConfigBuilder};
