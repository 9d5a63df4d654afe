//! The configuration of one transformation, and the step that fixes the
//! module format of a file that was written against `module.exports`.
//!
//! The format is only ever fixed where the caller left it open. The source
//! text is searched first; the tree is asked only where the text holds one of
//! the two marker words, so a file without them is never parsed on this
//! account. A file that could not be parsed counts as not using the
//! convention.

use vstd::prelude::*;
use crate::ast::Module;
use crate::auto_cjs::{contains_cjs, module_uses_cjs};
use crate::text::{chars_of, occurs, occurs_in};

verus! {

/// The module format that the output is written in.
#[derive(Clone, Copy, Debug, PartialEq, Eq, Structural)]
pub enum ModuleConfig {
    CommonJs,
    Umd,
    Amd,
    SystemJs,
    Es6,
    NodeNext,
}

/// The part of the compiler's own options that this crate reads or sets.
#[derive(Clone, Copy, Debug, PartialEq, Eq, Structural)]
pub struct Options {
    /// Whether a configuration file beside the source is to be read.
    pub swcrc: bool,
    /// The module format, where the caller has fixed one.
    pub module: Option<ModuleConfig>,
}

/// How a feature that takes settings is configured: switched as a whole, or
/// given settings of its own.
#[derive(Clone, Copy, Debug, PartialEq, Eq, Structural)]
pub enum Config {
    All(bool),
    WithOptions,
}

impl Config {
    /// Whether the feature is on: a flag says so itself, settings always do.
    pub open spec fn is_truthy(self) -> bool {
        match self {
            Config::All(on) => on,
            Config::WithOptions => true,
        }
    }

    /// Whether the feature is on.
    #[verifier::when_used_as_spec(is_truthy)]
    pub fn truthy(self) -> (on: bool)
        ensures
            on == self.is_truthy(),
    {
        match self {
            Config::All(on) => on,
            Config::WithOptions => true,
        }
    }
}

/// The settings of the styled-expression pass, as far as this crate reads them.
#[derive(Clone, Copy, Debug, PartialEq, Eq, Structural)]
pub struct EmotionOptions {
    pub enabled: Option<bool>,
}

/// What a source file is called.
#[derive(Clone, Debug, PartialEq, Eq)]
pub enum FileName {
    /// A path on disk; its text, where the path is valid Unicode.
    Real(Option<String>),
    /// No name at all.
    Anon,
    /// A name that the caller made up.
    Custom(String),
}

/// One source file: its name and its text.
#[derive(Clone, Debug, PartialEq, Eq)]
pub struct SourceFile {
    pub name: FileName,
    pub src: String,
}

/// The options of one transformation.
///
/// A feature that is configured by settings alone is recorded here by whether
/// settings were given; the settings themselves stay with the caller.
#[derive(Clone, Copy, Debug, PartialEq, Eq, Structural)]
pub struct TransformOptions {
    pub swc: Options,
    pub disable_next_ssg: bool,
    pub disable_page_config: bool,
    pub is_page_file: bool,
    pub is_development: bool,
    pub is_server: bool,
    pub server_components: Option<Config>,
    pub styled_jsx: bool,
    pub styled_components: bool,
    pub remove_console: Option<Config>,
    pub react_remove_properties: Option<Config>,
    pub relay: bool,
    pub shake_exports: bool,
    pub emotion: Option<EmotionOptions>,
    pub modularize_imports: bool,
    pub font_loaders: bool,
}

/// Whether `src` holds one of the two marker words, `module.exports` or `__esModule`.
pub open spec fn has_cjs_marker(src: Seq<char>) -> bool {
    occurs_in(src, "module.exports"@) || occurs_in(src, "__esModule"@)
}

/// Whether the tree of a file is wanted: the module format is open and the
/// text holds a marker word.
pub open spec fn parse_wanted(opts: TransformOptions, src: Seq<char>) -> bool {
    opts.swc.module is None && has_cjs_marker(src)
}

/// Whether the module format is to be fixed to CommonJS: the tree was wanted,
/// it could be had, and it holds a `module.exports`.
pub open spec fn cjs_detected(
    opts: TransformOptions,
    src: Seq<char>,
    parsed: Option<&Module>,
) -> bool {
    &&& parse_wanted(opts, src)
    &&& parsed matches Some(module) && module_uses_cjs(module@)
}

/// The options after the module format has been looked after: no
/// configuration file is read, the module format is CommonJS where it was
/// detected, and everything else is as given.
pub open spec fn patched(
    opts: TransformOptions,
    src: Seq<char>,
    parsed: Option<&Module>,
) -> TransformOptions {
    TransformOptions {
        swc: Options {
            swcrc: false,
            module: if cjs_detected(opts, src, parsed) {
                Some(ModuleConfig::CommonJs)
            } else {
                opts.swc.module
            },
        },
        ..opts
    }
}

/// Whether `src` holds one of the two marker words.
pub fn mentions_cjs(src: &str) -> (yes: bool)
    ensures
        yes == has_cjs_marker(src@),
{
    let text = chars_of(src);
    occurs(&text, "module.exports") || occurs(&text, "__esModule")
}

impl TransformOptions {
    /// Whether the caller is to parse `fm` before it calls [`Self::patch`].
    /// Where this is `false`, `patch` does not look at a tree.
    pub fn wants_parse(&self, fm: &SourceFile) -> (wanted: bool)
        ensures
            wanted == parse_wanted(*self, fm.src@),
    {
        self.swc.module.is_none() && mentions_cjs(fm.src.as_str())
    }

    /// Fixes the module format of `fm` where it is open and the file uses
    /// `module.exports`. `parsed` is the tree of `fm`, or `None` where the
    /// file was not parsed or could not be.
    pub fn patch(self, fm: &SourceFile, parsed: Option<&Module>) -> (out: TransformOptions)
        ensures
            out == patched(self, fm.src@, parsed),
    {
        let mut out = self;
        out.swc.swcrc = false;
        let should_enable_commonjs = out.swc.module.is_none() && mentions_cjs(fm.src.as_str())
            && match parsed {
            Some(module) => contains_cjs(module),
            None => false,
        };
        if should_enable_commonjs {
            out.swc.module = Some(ModuleConfig::CommonJs);
        }
        out
    }
}

/// A file whose text holds neither marker word is not parsed, and its module
/// format stays as the caller gave it, whatever a parser would have made of
/// the text.
pub proof fn lemma_no_marker_no_parse(
    opts: TransformOptions,
    src: Seq<char>,
    parsed: Option<&Module>,
)
    requires
        !has_cjs_marker(src),
    ensures
        !parse_wanted(opts, src),
        patched(opts, src, parsed).swc.module == opts.swc.module,
        patched(opts, src, parsed) == patched(opts, src, None),
{
}

/// A module format that the caller has fixed is never changed.
pub proof fn lemma_fixed_format_kept(
    opts: TransformOptions,
    src: Seq<char>,
    parsed: Option<&Module>,
)
    requires
        opts.swc.module is Some,
    ensures
        !parse_wanted(opts, src),
        patched(opts, src, parsed).swc.module == opts.swc.module,
{
}

/// A file that was not parsed, or could not be, keeps its module format.
pub proof fn lemma_unparsed_keeps_format(opts: TransformOptions, src: Seq<char>)
    ensures
        patched(opts, src, None).swc.module == opts.swc.module,
{
}

/// Patching touches nothing but the two compiler options, and patching again
/// with the same file changes nothing more.
pub proof fn lemma_patched_twice(opts: TransformOptions, src: Seq<char>, parsed: Option<&Module>)
    ensures
        patched(opts, src, parsed) == (TransformOptions {
            swc: patched(opts, src, parsed).swc,
            ..opts
        }),
        patched(patched(opts, src, parsed), src, parsed) == patched(opts, src, parsed),
{
}

} // verus!
