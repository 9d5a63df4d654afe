//! The accumulator: a set of names that passes add to and nothing is ever
//! taken from. It outlives the files of a build; what it holds after two
//! additions does not depend on which came first.
//!
//! The names are kept in an `FxHashSet`. Verus is told what its operations do
//! to the set of names held; the hashing itself is not reasoned about.

use vstd::prelude::*;
use fxhash::FxHashSet;

verus! {

/// The hasher of `fxhash`; nothing is claimed of it.
#[verifier::external_type_specification]
#[verifier::external_body]
pub struct ExFxHasher(fxhash::FxHasher);

/// The standard builder of default hashers; nothing is claimed of it.
#[verifier::external_type_specification]
#[verifier::external_body]
#[verifier::reject_recursive_types(H)]
pub struct ExBuildHasherDefault<H>(core::hash::BuildHasherDefault<H>);

/// The names that `set` holds, each as its text.
pub uninterp spec fn names_of(set: FxHashSet<String>) -> Set<Seq<char>>;

/// `HashSet::default`, which `FxHashSet` has from the standard library: the
/// new set holds no name.
#[verifier::external_body]
fn empty_set() -> (set: FxHashSet<String>)
    ensures
        names_of(set) == Set::<Seq<char>>::empty(),
{
    FxHashSet::default()
}

/// `HashSet::insert`: afterwards the set holds `name` besides what it held,
/// and the result says whether `name` was not held before.
#[verifier::external_body]
fn insert_name(set: &mut FxHashSet<String>, name: String) -> (fresh: bool)
    ensures
        names_of(*final(set)) == names_of(*old(set)).insert(name@),
        fresh == !names_of(*old(set)).contains(name@),
{
    set.insert(name)
}

/// `HashSet::contains`: whether the set holds `name`.
#[verifier::external_body]
fn holds_name(set: &FxHashSet<String>, name: &str) -> (held: bool)
    ensures
        held == names_of(*set).contains(name@),
{
    set.contains(name)
}

/// Whether `held` has `count` members, and so finitely many.
pub open spec fn has_count(held: Set<Seq<char>>, count: nat) -> bool {
    held.finite() && held.len() == count
}

/// `HashSet::len`: the number of names held.
#[verifier::external_body]
fn count_names(set: &FxHashSet<String>) -> (count: usize)
    ensures
        has_count(names_of(*set), count as nat),
{
    set.len()
}

/// `HashSet::iter`, each name copied out: the names held, each once, in an
/// order that is not told.
#[verifier::external_body]
fn list_names(set: &FxHashSet<String>) -> (names: Vec<String>)
    ensures
        lists(names@, names_of(*set)),
{
    set.iter().cloned().collect()
}

/// The error of `serde_json`; nothing is claimed of it.
#[verifier::external_type_specification]
#[verifier::external_body]
pub struct ExJsonError(serde_json::Error);

/// `serde_json::to_string` on the set: the names as the text of a JSON array,
/// or the error of the serialiser. Nothing is claimed of the text: it follows
/// the order in which the set is walked, which is not told.
#[verifier::external_body]
fn names_to_json(set: &FxHashSet<String>) -> Result<String, serde_json::Error> {
    serde_json::to_string(set)
}

/// The message of an error of `serde_json`, as its `Display` writes it.
#[verifier::external_body]
fn json_error_message(error: &serde_json::Error) -> String {
    error.to_string()
}

/// Whether `names` holds each member of `held` once and nothing else.
pub open spec fn lists(names: Seq<String>, held: Set<Seq<char>>) -> bool {
    &&& forall|i: int| 0 <= i < names.len() ==> held.contains(#[trigger] names[i]@)
    &&& forall|name: Seq<char>|
        held.contains(name) ==> exists|i: int| 0 <= i < names.len() && #[trigger] names[i]@ == name
    &&& forall|i: int, j: int|
        0 <= i < j < names.len() ==> #[trigger] names[i]@ != #[trigger] names[j]@
}

/// Why the names could not be written as JSON.
#[derive(Clone, Debug, PartialEq, Eq)]
pub struct SerializeError {
    pub message: String,
}

/// A set of names that only grows.
#[derive(Debug)]
pub struct Accumulator {
    set: FxHashSet<String>,
}

impl View for Accumulator {
    type V = Set<Seq<char>>;

    closed spec fn view(&self) -> Set<Seq<char>> {
        names_of(self.set)
    }
}

impl Default for Accumulator {
    /// An accumulator that holds nothing yet.
    fn default() -> (acc: Accumulator)
        ensures
            acc@ == Set::<Seq<char>>::empty(),
    {
        Accumulator::new()
    }
}

impl Accumulator {
    /// An accumulator that holds nothing yet.
    pub fn new() -> (acc: Accumulator)
        ensures
            acc@ == Set::<Seq<char>>::empty(),
    {
        Accumulator { set: empty_set() }
    }

    /// Adds `name`. What was held stays held; the result says whether `name`
    /// is new.
    pub fn insert(&mut self, name: String) -> (fresh: bool)
        ensures
            final(self)@ == old(self)@.insert(name@),
            fresh == !old(self)@.contains(name@),
    {
        insert_name(&mut self.set, name)
    }

    /// Whether `name` is held.
    pub fn contains(&self, name: &str) -> (held: bool)
        ensures
            held == self@.contains(name@),
    {
        holds_name(&self.set, name)
    }

    /// The number of names held.
    pub fn len(&self) -> (count: usize)
        ensures
            self@.finite(),
            count == self@.len(),
    {
        count_names(&self.set)
    }

    /// Whether nothing is held.
    pub fn is_empty(&self) -> (empty: bool)
        ensures
            empty == (self@ == Set::<Seq<char>>::empty()),
    {
        let count = count_names(&self.set);
        proof {
            if count == 0 {
                self@.lemma_len0_is_empty();
                assert(self@ =~= Set::<Seq<char>>::empty());
            }
        }
        count == 0
    }

    /// The names held as the text of a JSON array, in no particular order.
    pub(crate) fn to_json(&self) -> Result<String, SerializeError> {
        match names_to_json(&self.set) {
            Ok(text) => Ok(text),
            Err(error) => Err(SerializeError { message: json_error_message(&error) }),
        }
    }

    /// The names held, each once, in no particular order.
    pub fn names(&self) -> (names: Vec<String>)
        ensures
            lists(names@, self@),
    {
        list_names(&self.set)
    }
}

/// Nothing is lost by an addition, and the added name is held afterwards.
pub proof fn lemma_insert_keeps(held: Set<Seq<char>>, name: Seq<char>)
    ensures
        held.subset_of(held.insert(name)),
        held.insert(name).contains(name),
        held.insert(name) == held.union(set![name]),
{
    assert(held.insert(name) =~= held.union(set![name]));
}

/// Two additions give the same set whichever comes first: the set held
/// before, together with both names.
pub proof fn lemma_inserts_commute(held: Set<Seq<char>>, first: Seq<char>, second: Seq<char>)
    ensures
        held.insert(first).insert(second) == held.insert(second).insert(first),
        held.insert(first).insert(second) == held.union(set![first, second]),
        held.insert(first).insert(second).contains(first),
        held.insert(first).insert(second).contains(second),
{
    assert(held.insert(first).insert(second) =~= held.insert(second).insert(first));
    assert(held.insert(first).insert(second) =~= held.union(set![first, second]));
}

/// Adding a name that is held changes nothing.
pub proof fn lemma_insert_again(held: Set<Seq<char>>, name: Seq<char>)
    requires
        held.contains(name),
    ensures
        held.insert(name) == held,
{
    assert(held.insert(name) =~= held);
}

} // verus!
