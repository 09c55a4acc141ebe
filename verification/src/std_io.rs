//! The state of the backend for a real host.

use vstd::prelude::*;
use vstd::hash_map::StringHashMap;
use rand::rngs::SmallRng;
use rand::SeedableRng;
use crate::error::{Env, RuntimeError, RuntimeResult};
use crate::import::{
    after_load, clone_is_equal, is_copy, lemma_copy_is_equal, load_error, must_load, ImportOutcome, ImportStep,
    Imports,
};

verus! {

/// `rand::rngs::SmallRng`, carried as it is: nothing of its state is seen
/// here.
#[verifier::external_type_specification]
#[verifier::external_body]
pub struct ExSmallRng(SmallRng);

/// Reads the host's clock with `instant::SystemTime::now` and measures it
/// from the start of 1970 with `duration_since`: the whole milliseconds since
/// then, cut to 64 bits, or none where the clock stands before 1970. Nothing
/// is claimed of the number: it differs from call to call.
#[verifier::external_body]
fn clock_millis() -> (millis: Option<u64>) {
    instant::SystemTime::now().duration_since(instant::SystemTime::UNIX_EPOCH).ok().map(
        |since| since.as_millis() as u64,
    )
}

/// Calls `SmallRng::seed_from_u64`. Nothing is claimed of the generator that
/// it gives.
#[verifier::external_body]
fn seeded_rng(seed: u64) -> (rng: SmallRng) {
    SmallRng::seed_from_u64(seed)
}

/// What the backend for a real host keeps for the length of one program run:
/// its random generator, and the results of the modules imported so far.
#[verifier::reject_recursive_types(V)]
pub struct StdIo<V> {
    rng: SmallRng,
    imports: StringHashMap<Vec<V>>,
}

impl<V> StdIo<V> {
    /// The results stored so far.
    pub closed spec fn imports(&self) -> Imports<V> {
        self.imports@.map_values(|values: Vec<V>| values@)
    }

    /// The generator that random numbers are drawn from, in its present
    /// state.
    pub closed spec fn generator(&self) -> SmallRng {
        self.rng
    }

    /// Lends the generator, to draw from it. What is stored of the imports
    /// stays as it is, whatever the borrower does.
    pub fn rng_mut(&mut self) -> (rng: &mut SmallRng)
        ensures
            *rng == old(self).generator(),
            final(self).generator() == *final(rng),
            final(self).imports() == old(self).imports(),
    {
        &mut self.rng
    }
}

impl<V> Default for StdIo<V> {
    /// A backend that has imported nothing, with a generator seeded from the
    /// clock: with the milliseconds since 1970, and with 0 where the clock
    /// stands before 1970.
    fn default() -> (io: Self)
        ensures
            io.imports() == Map::<Seq<char>, Seq<V>>::empty(),
    {
        let seed: u64 = match clock_millis() {
            Some(millis) => millis,
            None => 0,
        };
        StdIo { rng: seeded_rng(seed), imports: StringHashMap::new() }
    }
}

impl<V: Clone> StdIo<V> {
    /// Begins an import of `path`: answers with copies of the stored values
    /// where the module ran before, and asks for a load where it did not.
    /// Where cloning gives equal values, the copies are the stored values.
    pub fn import(&self, path: &str) -> (step: ImportStep<V>)
        ensures
            match step {
                ImportStep::Cached(values) => {
                    &&& !must_load(self.imports(), path@)
                    &&& is_copy(self.imports()[path@], values@)
                    &&& clone_is_equal::<V>() ==> values@ == self.imports()[path@]
                },
                ImportStep::Load => must_load(self.imports(), path@),
            },
    {
        match self.imports.get(path) {
            Some(stored) => {
                let values = stored.clone();
                proof {
                    if clone_is_equal::<V>() {
                        lemma_copy_is_equal(stored@, values@);
                    }
                }
                ImportStep::Cached(values)
            },
            None => ImportStep::Load,
        }
    }

    /// Ends an import of `path` that had to load: `outcome` says how loading
    /// and running the module ended. A module that ran to its end is stored,
    /// unless the path holds a result by now, and the answer is a copy of what
    /// the path holds: where cloning gives equal values, the very values
    /// that the path holds. A failure is handed on as an import error and
    /// nothing is stored.
    pub fn finish_import(&mut self, path: &str, outcome: ImportOutcome<V>) -> (result: RuntimeResult<Vec<V>>)
        ensures
            final(self).imports() == after_load(old(self).imports(), path@, outcome@),
            final(self).generator() == old(self).generator(),
            match result {
                Ok(values) => {
                    &&& outcome is Completed
                    &&& is_copy(final(self).imports()[path@], values@)
                    &&& clone_is_equal::<V>() ==> values@ == final(self).imports()[path@]
                },
                Err(error) => load_error(outcome@) == Some(error@),
            },
    {
        match outcome {
            ImportOutcome::Completed(values) => {
                match self.imports.get(path) {
                    Some(stored) => {
                        let copy = stored.clone();
                        proof {
                            if clone_is_equal::<V>() {
                                lemma_copy_is_equal(stored@, copy@);
                            }
                        }
                        Ok(copy)
                    },
                    None => {
                        let copy = values.clone();
                        proof {
                            if clone_is_equal::<V>() {
                                lemma_copy_is_equal(values@, copy@);
                            }
                        }
                        self.imports.insert(path.to_owned(), values);
                        assert(self.imports() =~= after_load(old(self).imports(), path@, outcome@));
                        Ok(copy)
                    },
                }
            },
            ImportOutcome::LoadFailed(reason) => Err(RuntimeError::ImportLoad(reason)),
            ImportOutcome::RunFailed(reason) => Err(RuntimeError::ImportRun(reason)),
        }
    }
}

/// `index` is the place of the first entry of a listing that the host
/// failed to read.
pub open spec fn first_failure(entries: Seq<Result<String, String>>, index: int) -> bool {
    &&& 0 <= index < entries.len()
    &&& entries[index] is Err
    &&& forall|j: int| 0 <= j < index ==> (#[trigger] entries[j]) is Ok
}

/// The first entry of a listing that the host failed to read failed with
/// this description.
pub open spec fn fails_with(entries: Seq<Result<String, String>>, description: Seq<char>) -> bool {
    exists|i: int| first_failure(entries, i) && (#[trigger] entries[i])->Err_0@ == description
}

/// `paths` holds the entries of a listing, each one read, in the host's order.
pub open spec fn all_listed(entries: Seq<Result<String, String>>, paths: Seq<String>) -> bool {
    &&& paths.len() == entries.len()
    &&& forall|i: int|
        0 <= i < entries.len() ==> ((#[trigger] entries[i]) matches Ok(path) && paths[i]@ == path@)
}

/// The answers of the backend for a real host. The caller asks the host and
/// hands in what it said: a value, or the host's description of its failure.
impl<V> StdIo<V> {
    /// One line of input, given what reading the input gave: the line that
    /// was read; the empty text where the input is at its end or could not be
    /// read.
    pub fn scan_line(&mut self, read: Option<Result<String, String>>) -> (line: String)
        ensures
            line@ == match read {
                Some(Ok(text)) => text@,
                _ => Seq::<char>::empty(),
            },
            *final(self) == *old(self),
    {
        match read {
            Some(Ok(text)) => text,
            _ => String::new(),
        }
    }

    /// The value of a variable of the host's environment, given what
    /// looking it up gave: the value that was found, or none.
    pub fn var(&mut self, lookup: Result<String, String>) -> (value: Option<String>)
        ensures
            value == match lookup {
                Ok(text) => Some(text),
                Err(_) => None,
            },
            *final(self) == *old(self),
    {
        match lookup {
            Ok(text) => Some(text),
            Err(_) => None,
        }
    }

    /// Whether a path exists, given what asking the host about the path
    /// gave: it exists where the host could tell anything of it.
    pub fn file_exists<T>(&self, stat: &Result<T, String>) -> (found: bool)
        ensures
            found == (*stat is Ok),
    {
        stat.is_ok()
    }

    /// Whether a path is a file, given what asking the host about the path
    /// gave.
    pub fn is_file(&self, stat: Result<bool, String>, env: &Env) -> (result: RuntimeResult<bool>)
        ensures
            match stat {
                Ok(file) => result == Ok::<bool, RuntimeError>(file),
                Err(description) => result matches Err(error) && error@ == env.raised(
                    description@,
                ),
            },
    {
        env.host_result(stat)
    }

    /// The paths in a directory, given what listing it gave: the failure of
    /// the listing as a whole, or for each entry, in the host's order, its
    /// path or the failure to read it. The answer has every path, in that
    /// order, or the first failure.
    pub fn list_dir(&self, listing: Result<Vec<Result<String, String>>, String>, env: &Env) -> (result:
        RuntimeResult<Vec<String>>)
        ensures
            match result {
                Ok(paths) => listing matches Ok(entries) && all_listed(entries@, paths@),
                Err(error) => error@ == env.raised(error@.message()) && match listing {
                    Ok(entries) => fails_with(entries@, error@.message()),
                    Err(description) => error@.message() == description@,
                },
            },
    {
        let entries = match listing {
            Ok(entries) => entries,
            Err(description) => {
                return Err(env.error(description.as_str()));
            },
        };
        let mut paths: Vec<String> = Vec::new();
        let mut i: usize = 0;
        while i < entries.len()
            invariant
                i <= entries.len(),
                listing == Ok::<Vec<Result<String, String>>, String>(entries),
                all_listed(entries@.take(i as int), paths@),
            decreases entries.len() - i,
        {
            match &entries[i] {
                Ok(path) => {
                    paths.push(path.clone());
                },
                Err(description) => {
                    assert(first_failure(entries@, i as int)) by {
                        assert forall|j: int| 0 <= j < i implies (#[trigger] entries@[j]) is Ok by {
                            assert(entries@.take(i as int)[j] is Ok);
                        }
                    }
                    return Err(env.error(description.as_str()));
                },
            }
            i += 1;
            assert forall|k: int| 0 <= k < i implies ((#[trigger] entries@.take(i as int)[k]) matches Ok(path)
                && paths@[k]@ == path@) by {
                if k < i - 1 {
                    assert(entries@.take(i - 1)[k] is Ok);
                }
            }
        }
        assert(entries@.take(i as int) =~= entries@);
        Ok(paths)
    }

    /// The bytes of a file, given what reading it gave.
    pub fn read_file(&mut self, read: Result<Vec<u8>, String>, env: &Env) -> (result: RuntimeResult<Vec<u8>>)
        ensures
            match read {
                Ok(bytes) => result == Ok::<Vec<u8>, RuntimeError>(bytes),
                Err(description) => result matches Err(error) && error@ == env.raised(
                    description@,
                ),
            },
            *final(self) == *old(self),
    {
        env.host_result(read)
    }

    /// The end of writing a file, given what writing it gave.
    pub fn write_file(&mut self, written: Result<(), String>, env: &Env) -> (result: RuntimeResult)
        ensures
            match written {
                Ok(_) => result is Ok,
                Err(description) => result matches Err(error) && error@ == env.raised(
                    description@,
                ),
            },
            *final(self) == *old(self),
    {
        env.host_result(written)
    }
}

} // verus!
