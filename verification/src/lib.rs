//! A configurable chain of source-to-source passes over one parsed module:
//! how the chain is put together from the options, how it is applied, and two
//! passes in full, the test for the `module.exports` convention and the
//! attribute rewriter for `amp-` tags.

pub mod accumulator;
pub mod amp_attributes;
pub mod ast;
pub mod auto_cjs;
pub mod bindings;
pub mod options;
pub mod output;
pub mod pipeline;
pub mod text;

pub use options::TransformOptions;
pub use output::complete_output;
pub use pipeline::custom_before_pass;
