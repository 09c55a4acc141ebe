//! The rules by which the results of imported modules are remembered.
//!
//! A module is named by its path, taken letter for letter. The first import of
//! a path loads the module and runs it; what it left is stored under the path.
//! Every import of a stored path answers with a copy of what is stored, and the
//! module does not run again. A module that fails to load or to run leaves
//! nothing stored, so that the next import of its path tries again.

use vstd::prelude::*;
use crate::error::ErrorModel;

verus! {

/// What the caller has to do to serve an import.
#[derive(Debug, PartialEq, Eq)]
pub enum ImportStep<V> {
    /// The module ran before: these are copies of the values it left.
    Cached(Vec<V>),
    /// The module is not stored: load it, run it, and report how that ended.
    Load,
}

/// How loading and running a module ended.
#[derive(Debug, PartialEq, Eq)]
pub enum ImportOutcome<V> {
    /// It ran to its end and left these values.
    Completed(Vec<V>),
    /// It could not be loaded; holds the loader's words.
    LoadFailed(String),
    /// It was loaded and failed while it ran; holds the words of the failure.
    RunFailed(String),
}

/// What an [`ImportOutcome`] is, over sequences.
pub ghost enum OutcomeModel<V> {
    Completed(Seq<V>),
    LoadFailed(Seq<char>),
    RunFailed(Seq<char>),
}

impl<V> View for ImportOutcome<V> {
    type V = OutcomeModel<V>;

    open spec fn view(&self) -> OutcomeModel<V> {
        match *self {
            ImportOutcome::Completed(values) => OutcomeModel::Completed(values@),
            ImportOutcome::LoadFailed(reason) => OutcomeModel::LoadFailed(reason@),
            ImportOutcome::RunFailed(reason) => OutcomeModel::RunFailed(reason@),
        }
    }
}

/// The stored results: for each path whose module has run to its end, the
/// values that it left.
pub type Imports<V> = Map<Seq<char>, Seq<V>>;

/// `copy` has, place by place, a clone of what `source` has.
pub open spec fn is_copy<V: Clone>(source: Seq<V>, copy: Seq<V>) -> bool {
    &&& copy.len() == source.len()
    &&& forall|i: int| 0 <= i < source.len() ==> cloned(source[i], #[trigger] copy[i])
}

/// Cloning a `V` gives a value equal to the one cloned. This holds of the
/// numbers, of `bool`, `char` and `String`; it fails of a type whose `clone`
/// hands out something else than what it was given, and of such values no
/// two copies need be equal.
pub open spec fn clone_is_equal<V: Clone>() -> bool {
    forall|a: V, b: V| #[trigger] cloned(a, b) ==> a == b
}

/// Where cloning gives equal values, a copy of a sequence is that sequence.
pub proof fn lemma_copy_is_equal<V: Clone>(source: Seq<V>, copy: Seq<V>)
    requires
        clone_is_equal::<V>(),
        is_copy(source, copy),
    ensures
        copy == source,
{
    assert forall|i: int| 0 <= i < source.len() implies copy[i] == source[i] by {
        assert(cloned(source[i], copy[i]));
    }
    assert(copy =~= source);
}

/// Cloning a number, a `bool`, a `char` or a `String` gives an equal value.
pub proof fn lemma_plain_values_clone_equal()
    ensures
        clone_is_equal::<u8>(),
        clone_is_equal::<u16>(),
        clone_is_equal::<u32>(),
        clone_is_equal::<u64>(),
        clone_is_equal::<u128>(),
        clone_is_equal::<usize>(),
        clone_is_equal::<i8>(),
        clone_is_equal::<i16>(),
        clone_is_equal::<i32>(),
        clone_is_equal::<i64>(),
        clone_is_equal::<i128>(),
        clone_is_equal::<isize>(),
        clone_is_equal::<bool>(),
        clone_is_equal::<char>(),
        clone_is_equal::<String>(),
{
}

/// An import of `path` has to load and run the module: nothing is stored
/// under the path.
pub open spec fn must_load<V>(imports: Imports<V>, path: Seq<char>) -> bool {
    !imports.contains_key(path)
}

/// The stored results after a load of `path` ended in `outcome`. Only a
/// module that ran to its end is stored, and only under a path that holds
/// nothing yet: what is stored never changes.
pub open spec fn after_load<V>(imports: Imports<V>, path: Seq<char>, outcome: OutcomeModel<V>) -> Imports<V> {
    match outcome {
        OutcomeModel::Completed(values) if !imports.contains_key(path) => imports.insert(path, values),
        _ => imports,
    }
}

/// The error that an import answers with when the load ended in `outcome`,
/// if it ended in a failure.
pub open spec fn load_error<V>(outcome: OutcomeModel<V>) -> Option<ErrorModel> {
    match outcome {
        OutcomeModel::Completed(_) => None,
        OutcomeModel::LoadFailed(reason) => Some(ErrorModel::ImportLoad(reason)),
        OutcomeModel::RunFailed(reason) => Some(ErrorModel::ImportRun(reason)),
    }
}

} // verus!
