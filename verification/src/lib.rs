//! Registration and execution protocol for the React server components
//! source transform.
//!
//! The crate has two halves. The rule builder
//! ([`get_next_react_server_components_transform_rule`]) turns a
//! configuration plus caller-supplied parameters into a [`ModuleRule`]: a
//! match condition together with an ordered list of transform plugins that
//! the surrounding pipeline prepends to a matching module's transform chain.
//! The transform unit ([`NextJsReactServerComponents`]) rewrites one parsed
//! module tree per invocation through an externally supplied visitor
//! factory, following an ownership-swap protocol that never leaves the tree
//! slot in an invalid state.

pub mod config;
pub mod context;
pub mod error;
pub mod file_name;
pub mod fs_path;
pub mod program;
pub mod rule;
pub mod transform;

pub use config::NextConfig;
pub use context::{Comments, TransformContext};
pub use error::TransformError;
pub use file_name::FileName;
pub use fs_path::FileSystemPathRef;
pub use program::{Program, ProgramSlot};
pub use rule::{
    get_next_react_server_components_transform_rule, module_rule_match_js_no_url,
    EcmascriptInputTransform, MatchCondition, ModuleDescriptor, ModuleKind, ModuleRule,
    ModuleRuleEffect, TransformPlugin,
};
pub use transform::{NextJsReactServerComponents, Options, ServerComponentsConfig};
