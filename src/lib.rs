//! Loading of TypeScript project configuration files: a tolerant text
//! normalizer, a structured value model with deep merge, `extends` chain
//! resolution, and a typed schema over the merged value.
pub mod config;
pub mod enums;
pub mod error;
pub mod fields;
pub mod json;
pub mod normalize;
pub mod parse;
pub mod paths;
pub mod resolve;

pub use config::{CompilerOptions, Reference, References, TsConfig, TypeAcquisition};
pub use enums::{Jsx, Lib, Module, ModuleResolutionMode, Target};
pub use error::ConfigError;
pub use json::{merge, JsonValue};
pub use normalize::normalize;
pub use parse::parse_to_value;
pub use paths::normalize_path;
pub use resolve::{merge_chain, Resolution, ResolveStep};
