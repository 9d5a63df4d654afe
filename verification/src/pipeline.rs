//! The pass chain: which pass stands in which slot for a given configuration,
//! and how a chain is applied to a tree.
//!
//! A chain always has the same number of slots, and a pass of a given kind
//! always stands in the same slot. A feature that is switched off leaves the
//! identity pass in its slot. Two passes are carried out by this crate, the
//! identity and the attribute rewriter; every other pass is the caller's to
//! run, so applying a chain hands the tree back and forth: [`PassChain::advance`]
//! runs what it can and stops at the next pass that is the caller's, and
//! [`PassChain::resume`] takes what that pass made of the tree.

use vstd::prelude::*;
use crate::amp_attributes::{amp_attributes, rewritten_module};
use crate::ast::{Module, ModuleView};
use crate::options::{Config, FileName, SourceFile, TransformOptions};

verus! {

/// The number of slots of every chain.
pub const SLOTS: usize = 15;

/// One pass, with what it was set up with.
#[derive(Clone, Copy, Debug, PartialEq, Eq, Structural)]
pub enum Pass {
    /// The identity: the tree comes out as it went in.
    Noop,
    /// The guard against re-exporting everything from a page.
    DisallowReExportAllInPage { is_page_file: bool },
    /// The module-boundary pass.
    ServerComponents,
    /// The first styling pass.
    StyledJsx,
    /// The second styling pass.
    StyledComponents,
    /// The static-generation guard.
    NextSsg,
    /// The attribute rewriter.
    AmpAttributes,
    /// The dynamic-import pass.
    NextDynamic { is_development: bool, is_server: bool, is_server_components: bool },
    /// The page-config guard.
    PageConfig { is_development: bool, is_page_file: bool },
    /// The framework-integration pass.
    Relay,
    /// The console-call stripper.
    RemoveConsole,
    /// The property stripper.
    RemoveProperties,
    /// The export-shaking pass.
    ShakeExports,
    /// The styled-expression pass.
    Emotion,
    /// The import-modularization pass.
    ModularizeImports,
    /// The font-loader pass.
    FontLoaders,
}

/// The slot that a pass of this kind stands in; the identity has none of its own.
pub open spec fn slot_of(pass: Pass) -> Option<int> {
    match pass {
        Pass::Noop => None,
        Pass::DisallowReExportAllInPage { .. } => Some(0),
        Pass::ServerComponents => Some(1),
        Pass::StyledJsx => Some(2),
        Pass::StyledComponents => Some(3),
        Pass::NextSsg => Some(4),
        Pass::AmpAttributes => Some(5),
        Pass::NextDynamic { .. } => Some(6),
        Pass::PageConfig { .. } => Some(7),
        Pass::Relay => Some(8),
        Pass::RemoveConsole => Some(9),
        Pass::RemoveProperties => Some(10),
        Pass::ShakeExports => Some(11),
        Pass::Emotion => Some(12),
        Pass::ModularizeImports => Some(13),
        Pass::FontLoaders => Some(14),
    }
}

/// `pass` where the feature is on, the identity where it is off.
pub open spec fn when(on: bool, pass: Pass) -> Pass {
    if on {
        pass
    } else {
        Pass::Noop
    }
}

/// Whether a feature that is switched by a flag or by settings is on.
pub open spec fn is_on(feature: Option<Config>) -> bool {
    feature matches Some(config) && config.is_truthy()
}

/// Whether `name` is a path on disk that is valid Unicode.
pub open spec fn is_unicode_path(name: FileName) -> bool {
    name matches FileName::Real(Some(_))
}

/// Whether the styled-expression pass is on: it has settings that enable it,
/// and the file is a path on disk that is valid Unicode.
pub open spec fn emotion_on(opts: TransformOptions, unicode_path: bool) -> bool {
    &&& opts.emotion matches Some(config) && config.enabled == Some(true)
    &&& unicode_path
}

/// The pass in slot `slot` for `opts` and a file that is, or is not, a
/// Unicode path on disk. Earlier slots run first.
pub open spec fn slot_pass(opts: TransformOptions, unicode_path: bool, slot: int) -> Pass {
    if slot == 0 {
        Pass::DisallowReExportAllInPage { is_page_file: opts.is_page_file }
    } else if slot == 1 {
        when(is_on(opts.server_components), Pass::ServerComponents)
    } else if slot == 2 {
        when(opts.styled_jsx, Pass::StyledJsx)
    } else if slot == 3 {
        when(opts.styled_components, Pass::StyledComponents)
    } else if slot == 4 {
        when(!opts.disable_next_ssg, Pass::NextSsg)
    } else if slot == 5 {
        Pass::AmpAttributes
    } else if slot == 6 {
        Pass::NextDynamic {
            is_development: opts.is_development,
            is_server: opts.is_server,
            is_server_components: opts.server_components is Some,
        }
    } else if slot == 7 {
        when(
            !opts.disable_page_config,
            Pass::PageConfig {
                is_development: opts.is_development,
                is_page_file: opts.is_page_file,
            },
        )
    } else if slot == 8 {
        when(opts.relay, Pass::Relay)
    } else if slot == 9 {
        when(is_on(opts.remove_console), Pass::RemoveConsole)
    } else if slot == 10 {
        when(is_on(opts.react_remove_properties), Pass::RemoveProperties)
    } else if slot == 11 {
        when(opts.shake_exports, Pass::ShakeExports)
    } else if slot == 12 {
        when(emotion_on(opts, unicode_path), Pass::Emotion)
    } else if slot == 13 {
        when(opts.modularize_imports, Pass::ModularizeImports)
    } else if slot == 14 {
        when(opts.font_loaders, Pass::FontLoaders)
    } else {
        Pass::Noop
    }
}

/// The chain for `opts` and a file that is, or is not, a Unicode path on disk.
pub open spec fn chain_of(opts: TransformOptions, unicode_path: bool) -> Seq<Pass> {
    Seq::new(SLOTS as nat, |slot: int| slot_pass(opts, unicode_path, slot))
}

/// An ordered chain of passes.
#[derive(Clone, Debug, PartialEq, Eq)]
pub struct PassChain {
    pub passes: Vec<Pass>,
}

impl View for PassChain {
    type V = Seq<Pass>;

    open spec fn view(&self) -> Seq<Pass> {
        self.passes@
    }
}

/// `pass` where `on`, the identity where not.
fn enabled(on: bool, pass: Pass) -> (slot: Pass)
    ensures
        slot == when(on, pass),
{
    if on {
        pass
    } else {
        Pass::Noop
    }
}

/// Whether a feature that is switched by a flag or by settings is on.
fn truthy(feature: &Option<Config>) -> (on: bool)
    ensures
        on == is_on(*feature),
{
    match feature {
        Some(config) => config.truthy(),
        None => false,
    }
}

/// The pass that stands in slot `slot` of the chain for `file` under `opts`.
pub fn pass_at(file: &SourceFile, opts: &TransformOptions, slot: usize) -> (pass: Pass)
    ensures
        pass == slot_pass(*opts, is_unicode_path(file.name), slot as int),
{
    if slot == 0 {
        Pass::DisallowReExportAllInPage { is_page_file: opts.is_page_file }
    } else if slot == 1 {
        enabled(truthy(&opts.server_components), Pass::ServerComponents)
    } else if slot == 2 {
        enabled(opts.styled_jsx, Pass::StyledJsx)
    } else if slot == 3 {
        enabled(opts.styled_components, Pass::StyledComponents)
    } else if slot == 4 {
        enabled(!opts.disable_next_ssg, Pass::NextSsg)
    } else if slot == 5 {
        Pass::AmpAttributes
    } else if slot == 6 {
        Pass::NextDynamic {
            is_development: opts.is_development,
            is_server: opts.is_server,
            is_server_components: opts.server_components.is_some(),
        }
    } else if slot == 7 {
        enabled(
            !opts.disable_page_config,
            Pass::PageConfig {
                is_development: opts.is_development,
                is_page_file: opts.is_page_file,
            },
        )
    } else if slot == 8 {
        enabled(opts.relay, Pass::Relay)
    } else if slot == 9 {
        enabled(truthy(&opts.remove_console), Pass::RemoveConsole)
    } else if slot == 10 {
        enabled(truthy(&opts.react_remove_properties), Pass::RemoveProperties)
    } else if slot == 11 {
        enabled(opts.shake_exports, Pass::ShakeExports)
    } else if slot == 12 {
        let on = match (&opts.emotion, &file.name) {
            (Some(config), FileName::Real(Some(_))) => match config.enabled {
                Some(on) => on,
                None => false,
            },
            _ => false,
        };
        enabled(on, Pass::Emotion)
    } else if slot == 13 {
        enabled(opts.modularize_imports, Pass::ModularizeImports)
    } else if slot == 14 {
        enabled(opts.font_loaders, Pass::FontLoaders)
    } else {
        Pass::Noop
    }
}

/// Builds the chain for `file` under `opts`.
pub fn custom_before_pass(file: &SourceFile, opts: &TransformOptions) -> (chain: PassChain)
    ensures
        chain@ == chain_of(*opts, is_unicode_path(file.name)),
{
    let mut passes: Vec<Pass> = Vec::new();
    let mut slot: usize = 0;
    while slot < SLOTS
        invariant
            slot <= SLOTS,
            passes.len() == slot,
            forall|i: int|
                0 <= i < slot ==> passes@[i] == slot_pass(*opts, is_unicode_path(file.name), i),
        decreases SLOTS - slot,
    {
        passes.push(pass_at(file, opts, slot));
        slot += 1;
    }
    assert(passes@ =~= chain_of(*opts, is_unicode_path(file.name)));
    PassChain { passes }
}

/// Where the application of a chain stands.
#[derive(Debug, PartialEq, Eq)]
pub enum Step {
    /// The pass in `slot` is the caller's to run, on `tree`.
    Run { slot: usize, pass: Pass, tree: Module },
    /// Every slot has been applied; this is the rewritten tree.
    Done(Module),
    /// A pass failed fatally; the file has no output.
    Discarded,
}

/// The view of a [`Step`].
pub ghost enum StepView {
    Run { slot: int, pass: Pass, tree: ModuleView },
    Done(ModuleView),
    Discarded,
}

impl View for Step {
    type V = StepView;

    open spec fn view(&self) -> StepView {
        match *self {
            Step::Run { slot, pass, tree } => StepView::Run { slot: slot as int, pass, tree: tree@ },
            Step::Done(tree) => StepView::Done(tree@),
            Step::Discarded => StepView::Discarded,
        }
    }
}

/// What a pass that the caller ran has handed back.
#[derive(Debug, PartialEq, Eq)]
pub enum Outcome {
    /// The tree as the pass left it; what it had to report is with the caller.
    Rewritten(Module),
    /// The pass reported a problem that ends the work on this file.
    Fatal,
}

/// Whether this crate carries out `pass` itself.
pub open spec fn is_built_in(pass: Pass) -> bool {
    pass is Noop || pass is AmpAttributes
}

/// What a pass of this crate makes of `tree`.
pub open spec fn built_in_result(pass: Pass, tree: ModuleView) -> ModuleView {
    if pass is AmpAttributes {
        rewritten_module(tree)
    } else {
        tree
    }
}

/// Where applying `chain` to `tree` from slot `from` on comes to a halt: at
/// the first slot from there that holds a pass of the caller's, with the tree
/// as the slots before it left it, or at the end of the chain.
pub open spec fn advanced(chain: Seq<Pass>, from: int, tree: ModuleView) -> StepView
    decreases chain.len() - from,
{
    if from < 0 || from >= chain.len() {
        StepView::Done(tree)
    } else if is_built_in(chain[from]) {
        advanced(chain, from + 1, built_in_result(chain[from], tree))
    } else {
        StepView::Run { slot: from, pass: chain[from], tree }
    }
}

/// Where the application stands once the pass in `slot` has handed back
/// `outcome`: nowhere after a fatal problem, else where applying the rest of
/// the chain to the rewritten tree comes to a halt.
pub open spec fn resumed(chain: Seq<Pass>, slot: int, outcome: Outcome) -> StepView {
    match outcome {
        Outcome::Fatal => StepView::Discarded,
        Outcome::Rewritten(tree) => advanced(chain, slot + 1, tree@),
    }
}

/// Whether every slot of `chain` from `from` up to `until` holds the identity.
pub open spec fn idle_between(chain: Seq<Pass>, from: int, until: int) -> bool {
    forall|i: int| from <= i < until && 0 <= i < chain.len() ==> chain[i] is Noop
}

impl PassChain {
    /// The first slot from `from` on that holds a pass to run, with that pass;
    /// `None` where only identities are left.
    pub fn next_pass(&self, from: usize) -> (next: Option<(usize, Pass)>)
        ensures
            match next {
                Some((slot, pass)) => {
                    &&& from <= slot < self@.len()
                    &&& pass == self@[slot as int]
                    &&& !(pass is Noop)
                    &&& idle_between(self@, from as int, slot as int)
                },
                None => idle_between(self@, from as int, self@.len() as int),
            },
    {
        let mut at: usize = from;
        while at < self.passes.len()
            invariant
                from <= at,
                idle_between(self@, from as int, at as int),
            decreases self.passes.len() - at,
        {
            let pass = self.passes[at];
            match pass {
                Pass::Noop => {},
                _ => {
                    return Some((at, pass));
                },
            }
            at += 1;
        }
        None
    }

    /// Applies the chain to `tree` from slot `from` on, as far as this crate
    /// carries out the passes itself.
    pub fn advance(&self, from: usize, tree: Module) -> (step: Step)
        ensures
            step@ == advanced(self@, from as int, tree@),
    {
        let mut at: usize = from;
        let mut current = tree;
        while at < self.passes.len()
            invariant
                from <= at,
                advanced(self@, at as int, current@) == advanced(self@, from as int, tree@),
            decreases self.passes.len() - at,
        {
            let pass = self.passes[at];
            match pass {
                Pass::Noop => {},
                Pass::AmpAttributes => {
                    let mut patcher = amp_attributes();
                    current = patcher.fold_module(current);
                },
                _ => {
                    assert(!is_built_in(pass));
                    return Step::Run { slot: at, pass, tree: current };
                },
            }
            at += 1;
        }
        Step::Done(current)
    }

    /// Applies the whole chain to `tree`, as far as this crate carries out the
    /// passes itself.
    pub fn start(&self, tree: Module) -> (step: Step)
        ensures
            step@ == advanced(self@, 0, tree@),
    {
        self.advance(0, tree)
    }

    /// Goes on after the pass in `slot`, which the caller ran.
    pub fn resume(&self, slot: usize, outcome: Outcome) -> (step: Step)
        ensures
            step@ == resumed(self@, slot as int, outcome),
    {
        match outcome {
            Outcome::Fatal => Step::Discarded,
            Outcome::Rewritten(tree) => {
                if slot >= self.passes.len() {
                    Step::Done(tree)
                } else {
                    self.advance(slot + 1, tree)
                }
            },
        }
    }
}

/// What `pass` makes of `tree`, where `external` says what the passes of the
/// caller make of a tree.
pub open spec fn pass_result(
    pass: Pass,
    tree: ModuleView,
    external: spec_fn(Pass, ModuleView) -> ModuleView,
) -> ModuleView {
    if is_built_in(pass) {
        built_in_result(pass, tree)
    } else {
        external(pass, tree)
    }
}

/// What the slots of `chain` from `from` on make of `tree`, one after the
/// other, each on what the one before it left.
pub open spec fn chain_result(
    chain: Seq<Pass>,
    from: int,
    tree: ModuleView,
    external: spec_fn(Pass, ModuleView) -> ModuleView,
) -> ModuleView
    decreases chain.len() - from,
{
    if from < 0 || from >= chain.len() {
        tree
    } else {
        chain_result(chain, from + 1, pass_result(chain[from], tree, external), external)
    }
}

/// Whether every feature that can be switched off is off.
pub open spec fn all_disabled(opts: TransformOptions, unicode_path: bool) -> bool {
    &&& !is_on(opts.server_components)
    &&& !opts.styled_jsx
    &&& !opts.styled_components
    &&& opts.disable_next_ssg
    &&& opts.disable_page_config
    &&& !opts.relay
    &&& !is_on(opts.remove_console)
    &&& !is_on(opts.react_remove_properties)
    &&& !opts.shake_exports
    &&& !emotion_on(opts, unicode_path)
    &&& !opts.modularize_imports
    &&& !opts.font_loaders
}

/// Every chain has the same number of slots, and each slot holds the
/// identity or the pass whose slot it is.
pub proof fn lemma_chain_shape(opts: TransformOptions, unicode_path: bool)
    ensures
        chain_of(opts, unicode_path).len() == SLOTS,
        forall|i: int|
            0 <= i < SLOTS ==> {
                let pass = #[trigger] chain_of(opts, unicode_path)[i];
                pass is Noop || slot_of(pass) == Some(i)
            },
{
}

/// The same configuration gives the same chain, slot for slot.
pub proof fn lemma_same_options_same_chain(
    first: TransformOptions,
    second: TransformOptions,
    unicode_path: bool,
)
    requires
        first == second,
    ensures
        chain_of(first, unicode_path) == chain_of(second, unicode_path),
{
}

/// A pass of one kind stands in the same slot of every chain, whatever else
/// is switched on or off.
pub proof fn lemma_kind_fixes_slot(
    first: TransformOptions,
    first_path: bool,
    second: TransformOptions,
    second_path: bool,
    i: int,
    j: int,
)
    requires
        0 <= i < SLOTS,
        0 <= j < SLOTS,
        !(chain_of(first, first_path)[i] is Noop),
        slot_of(chain_of(first, first_path)[i]) == slot_of(chain_of(second, second_path)[j]),
    ensures
        i == j,
{
    lemma_chain_shape(first, first_path);
    lemma_chain_shape(second, second_path);
    assert(slot_of(chain_of(first, first_path)[i]) == Some(i));
    assert(!(chain_of(second, second_path)[j] is Noop));
}

/// Two passes that stand in one order in one chain stand in that order in
/// every chain that holds both: switching other features on or off does not
/// reorder them.
pub proof fn lemma_order_kept(
    first: TransformOptions,
    first_path: bool,
    second: TransformOptions,
    second_path: bool,
    i: int,
    j: int,
    k: int,
    l: int,
)
    requires
        0 <= i < j < SLOTS,
        0 <= k < SLOTS,
        0 <= l < SLOTS,
        !(chain_of(first, first_path)[i] is Noop),
        !(chain_of(first, first_path)[j] is Noop),
        slot_of(chain_of(first, first_path)[i]) == slot_of(chain_of(second, second_path)[k]),
        slot_of(chain_of(first, first_path)[j]) == slot_of(chain_of(second, second_path)[l]),
    ensures
        k < l,
{
    lemma_kind_fixes_slot(first, first_path, second, second_path, i, k);
    lemma_kind_fixes_slot(first, first_path, second, second_path, j, l);
}

/// Applying a chain by [`advanced`] and [`resumed`], with the caller running
/// its passes, gives what the slots make of the tree one after the other.
pub proof fn lemma_advance_runs_chain(
    chain: Seq<Pass>,
    from: int,
    tree: ModuleView,
    external: spec_fn(Pass, ModuleView) -> ModuleView,
)
    requires
        0 <= from,
    ensures
        match advanced(chain, from, tree) {
            StepView::Done(out) => chain_result(chain, from, tree, external) == out,
            StepView::Run { slot, pass, tree: at } => {
                &&& from <= slot < chain.len()
                &&& pass == chain[slot]
                &&& !is_built_in(pass)
                &&& chain_result(chain, from, tree, external) == chain_result(
                    chain,
                    slot + 1,
                    external(pass, at),
                    external,
                )
            },
            StepView::Discarded => false,
        },
    decreases chain.len() - from,
{
    if from < chain.len() && is_built_in(chain[from]) {
        lemma_advance_runs_chain(chain, from + 1, built_in_result(chain[from], tree), external);
    }
}

/// What applying `chain` from slot `from` on comes to where the caller runs
/// each pass it is handed and resumes with what the pass made of the tree.
pub open spec fn driven(
    chain: Seq<Pass>,
    from: int,
    tree: ModuleView,
    external: spec_fn(Pass, ModuleView) -> ModuleView,
) -> ModuleView
    decreases chain.len() - from,
{
    match advanced(chain, from, tree) {
        StepView::Run { slot, pass, tree: at } => if from <= slot < chain.len() {
            driven(chain, slot + 1, external(pass, at), external)
        } else {
            at
        },
        StepView::Done(out) => out,
        StepView::Discarded => tree,
    }
}

/// Driving a chain to its end gives what its slots make of the tree one after
/// the other.
pub proof fn lemma_driven_runs_chain(
    chain: Seq<Pass>,
    from: int,
    tree: ModuleView,
    external: spec_fn(Pass, ModuleView) -> ModuleView,
)
    requires
        0 <= from,
    ensures
        driven(chain, from, tree, external) == chain_result(chain, from, tree, external),
    decreases chain.len() - from,
{
    lemma_advance_runs_chain(chain, from, tree, external);
    match advanced(chain, from, tree) {
        StepView::Run { slot, pass, tree: at } => {
            lemma_driven_runs_chain(chain, slot + 1, external(pass, at), external);
        },
        _ => {},
    }
}

/// Applying a chain never discards a file by itself.
pub proof fn lemma_advance_keeps_output(chain: Seq<Pass>, from: int, tree: ModuleView)
    ensures
        !(advanced(chain, from, tree) is Discarded),
    decreases chain.len() - from,
{
    if 0 <= from < chain.len() && is_built_in(chain[from]) {
        lemma_advance_keeps_output(chain, from + 1, built_in_result(chain[from], tree));
    }
}

/// A file has no output exactly where a pass failed fatally.
pub proof fn lemma_discarded_iff_fatal(chain: Seq<Pass>, slot: int, outcome: Outcome)
    ensures
        resumed(chain, slot, outcome) is Discarded <==> outcome is Fatal,
{
    match outcome {
        Outcome::Rewritten(tree) => {
            lemma_advance_keeps_output(chain, slot + 1, tree@);
        },
        Outcome::Fatal => {},
    }
}

/// A slot that holds the identity can be left out of the account: the chain
/// makes of a tree what its other slots make of it.
pub proof fn lemma_noop_slot_skipped(
    chain: Seq<Pass>,
    from: int,
    tree: ModuleView,
    external: spec_fn(Pass, ModuleView) -> ModuleView,
)
    requires
        0 <= from < chain.len(),
        chain[from] is Noop,
    ensures
        chain_result(chain, from, tree, external) == chain_result(chain, from + 1, tree, external),
{
}

/// With every feature off that can be switched off, a chain gives back the
/// tree it was given, wherever the three passes that are always there leave
/// that tree as it is.
pub proof fn lemma_all_disabled_is_identity(
    opts: TransformOptions,
    unicode_path: bool,
    tree: ModuleView,
    external: spec_fn(Pass, ModuleView) -> ModuleView,
)
    requires
        all_disabled(opts, unicode_path),
        external(chain_of(opts, unicode_path)[0], tree) == tree,
        rewritten_module(tree) == tree,
        external(chain_of(opts, unicode_path)[6], tree) == tree,
    ensures
        chain_result(chain_of(opts, unicode_path), 0, tree, external) == tree,
{
    let chain = chain_of(opts, unicode_path);
    reveal_with_fuel(chain_result, 16);
    assert(chain.len() == SLOTS);
}

} // verus!
