//! What holds of the import rules over a whole program run.
//!
//! A run is told as the sequence of its import events on one backend. An
//! import begins; where the path is stored it is answered at once, and where
//! it is not, a load begins, which ends later in some outcome. While a module
//! runs it may import further modules, so loads lie inside one another, and
//! the load that began last ends first.

use vstd::prelude::*;
use crate::import::{after_load, clone_is_equal, is_copy, lemma_copy_is_equal, must_load, Imports, OutcomeModel};

verus! {

/// One step of an import.
pub ghost enum Event<V> {
    /// An import of this path begins: a call of `StdIo::import`.
    Begin(Seq<char>),
    /// The load of this path ends in this outcome: a call of
    /// `StdIo::finish_import`.
    End(Seq<char>, OutcomeModel<V>),
}

/// Where a backend stands between two events.
pub ghost struct Session<V> {
    /// The stored results.
    pub imports: Imports<V>,
    /// The paths whose loads have begun and have not ended, the outermost
    /// first.
    pub loading: Seq<Seq<char>>,
}

/// Where the backend stands after an event. What is stored changes at the
/// end of a load alone, as `after_load` says.
pub open spec fn step<V>(session: Session<V>, event: Event<V>) -> Session<V> {
    match event {
        Event::Begin(path) => if must_load(session.imports, path) {
            Session { imports: session.imports, loading: session.loading.push(path) }
        } else {
            session
        },
        Event::End(path, outcome) => Session {
            imports: after_load(session.imports, path, outcome),
            loading: if session.loading.len() > 0 {
                session.loading.drop_last()
            } else {
                session.loading
            },
        },
    }
}

/// Where the backend stands after a sequence of events.
pub open spec fn run<V>(session: Session<V>, events: Seq<Event<V>>) -> Session<V>
    decreases events.len(),
{
    if events.len() == 0 {
        session
    } else {
        run(step(session, events.first()), events.drop_first())
    }
}

/// The event is one that a run makes at this point: a load ends only where
/// it is the load that began last; and no load begins for a path whose load
/// is under way, which is a module that imports itself, directly or through
/// others, before it has run to its end.
pub open spec fn in_order<V>(session: Session<V>, event: Event<V>) -> bool {
    match event {
        Event::Begin(path) => must_load(session.imports, path) ==> !session.loading.contains(path),
        Event::End(path, _) => session.loading.len() > 0 && session.loading.last() == path,
    }
}

/// Each of the events is in order at its point.
pub open spec fn orderly<V>(session: Session<V>, events: Seq<Event<V>>) -> bool
    decreases events.len(),
{
    events.len() == 0 || (in_order(session, events.first()) && orderly(
        step(session, events.first()),
        events.drop_first(),
    ))
}

/// No path is under load twice, and none that is under load is stored. This
/// holds at the start of a program run, where nothing is under load.
pub open spec fn settled<V>(session: Session<V>) -> bool {
    &&& session.loading.no_duplicates()
    &&& forall|i: int| 0 <= i < session.loading.len() ==> must_load(session.imports, #[trigger] session.loading[i])
}

/// The event ends a load of `path` in which the module ran to its end.
pub open spec fn completes<V>(event: Event<V>, path: Seq<char>) -> bool {
    event matches Event::End(ended, outcome) && ended == path && outcome is Completed
}

/// How often among the events the module at `path` ran to its end.
pub open spec fn completed_runs<V>(events: Seq<Event<V>>, path: Seq<char>) -> nat
    decreases events.len(),
{
    if events.len() == 0 {
        0
    } else {
        let run: nat = if completes(events.first(), path) {
            1
        } else {
            0
        };
        run + completed_runs(events.drop_first(), path)
    }
}

/// The event hands out `values` to an importer of `path`: an import that
/// begins where the path is stored, or a load that ends with the module run
/// to its end, hands out copies of what the path holds from then on.
pub open spec fn hands_out<V: Clone>(session: Session<V>, event: Event<V>, path: Seq<char>, values: Seq<V>) -> bool {
    match event {
        Event::Begin(begun) => begun == path && !must_load(session.imports, path) && is_copy(
            session.imports[path],
            values,
        ),
        Event::End(ended, outcome) => ended == path && outcome is Completed && is_copy(
            step(session, event).imports[path],
            values,
        ),
    }
}

/// What is stored under a path stays stored, and stays what it is, through
/// every event, in order or not.
pub proof fn lemma_stored_results_stay<V>(session: Session<V>, events: Seq<Event<V>>, path: Seq<char>)
    requires
        !must_load(session.imports, path),
    ensures
        !must_load(run(session, events).imports, path),
        run(session, events).imports[path] == session.imports[path],
    decreases events.len(),
{
    if events.len() > 0 {
        lemma_stored_results_stay(step(session, events.first()), events.drop_first(), path);
    }
}

/// A load that ends in a failure stores nothing: the next import of the path
/// begins a load again. A load that ends with the module run to its end
/// leaves the path stored.
pub proof fn lemma_only_completed_loads_are_stored<V>(session: Session<V>, path: Seq<char>, outcome: OutcomeModel<V>)
    ensures
        !(outcome is Completed) ==> step(session, Event::End(path, outcome)).imports == session.imports,
        outcome is Completed ==> !must_load(step(session, Event::End(path, outcome)).imports, path),
        outcome is Completed && must_load(session.imports, path) ==> step(
            session,
            Event::End(path, outcome),
        ).imports[path] == outcome->Completed_0,
{
}

/// Two importers of one path on one backend, the second after the first,
/// with any events between them: both are handed copies, of one length, of
/// the one sequence that the path holds from the first on. Each is handed
/// a sequence of its own, by value, and no event takes such a sequence back:
/// what an importer does to its sequence reaches neither the other's nor
/// what is stored.
pub proof fn lemma_importers_get_copies_of_one_result<V: Clone>(
    session: Session<V>,
    first: Event<V>,
    between: Seq<Event<V>>,
    second: Event<V>,
    path: Seq<char>,
    first_values: Seq<V>,
    second_values: Seq<V>,
)
    requires
        hands_out(session, first, path, first_values),
        hands_out(run(step(session, first), between), second, path, second_values),
    ensures
        !must_load(step(session, first).imports, path),
        is_copy(step(session, first).imports[path], first_values),
        is_copy(step(session, first).imports[path], second_values),
        first_values.len() == second_values.len(),
        step(run(step(session, first), between), second).imports[path] == step(session, first).imports[path],
{
    lemma_stored_results_stay(step(session, first), between, path);
}

/// Two importers of one path on one backend, the second after the first,
/// with any events between them, are handed equal values, in the same order:
/// the values that the path holds from the first on. This is said of values
/// whose clone is equal to them; of others it does not hold.
pub proof fn lemma_importers_get_equal_values<V: Clone>(
    session: Session<V>,
    first: Event<V>,
    between: Seq<Event<V>>,
    second: Event<V>,
    path: Seq<char>,
    first_values: Seq<V>,
    second_values: Seq<V>,
)
    requires
        clone_is_equal::<V>(),
        hands_out(session, first, path, first_values),
        hands_out(run(step(session, first), between), second, path, second_values),
    ensures
        first_values == second_values,
        second_values == step(session, first).imports[path],
        second_values == step(run(step(session, first), between), second).imports[path],
{
    lemma_importers_get_copies_of_one_result(session, first, between, second, path, first_values, second_values);
    lemma_copy_is_equal(step(session, first).imports[path], first_values);
    lemma_copy_is_equal(step(session, first).imports[path], second_values);
}

/// An event in order leaves a settled backend settled.
pub proof fn lemma_step_keeps_settled<V>(session: Session<V>, event: Event<V>)
    requires
        settled(session),
        in_order(session, event),
    ensures
        settled(step(session, event)),
{
    let next = step(session, event);
    match event {
        Event::Begin(path) => {
            if must_load(session.imports, path) {
                assert forall|i: int, j: int|
                    0 <= i < next.loading.len() && 0 <= j < next.loading.len() && i != j implies next.loading[i]
                    != next.loading[j] by {
                    if i < session.loading.len() {
                        assert(session.loading.contains(session.loading[i]));
                    }
                    if j < session.loading.len() {
                        assert(session.loading.contains(session.loading[j]));
                    }
                }
            }
        },
        Event::End(path, outcome) => {
            assert forall|i: int| 0 <= i < next.loading.len() implies must_load(
                next.imports,
                #[trigger] next.loading[i],
            ) by {
                assert(next.loading[i] == session.loading[i]);
                assert(session.loading[i] != session.loading[session.loading.len() - 1]);
            }
        },
    }
}

/// Once a path is stored, its module does not run again.
pub proof fn lemma_stored_module_does_not_run<V>(session: Session<V>, events: Seq<Event<V>>, path: Seq<char>)
    requires
        settled(session),
        orderly(session, events),
        !must_load(session.imports, path),
    ensures
        completed_runs(events, path) == 0,
    decreases events.len(),
{
    if events.len() > 0 {
        let next = step(session, events.first());
        lemma_step_keeps_settled(session, events.first());
        if events.first() is End && events.first()->End_0 == path {
            assert(session.loading[session.loading.len() - 1] == path);
        }
        lemma_stored_module_does_not_run(next, events.drop_first(), path);
    }
}

/// Over a program run the module at a path runs to its end at most once,
/// however often and however deep inside other imports the path is imported.
pub proof fn lemma_module_runs_at_most_once<V>(session: Session<V>, events: Seq<Event<V>>, path: Seq<char>)
    requires
        settled(session),
        orderly(session, events),
    ensures
        completed_runs(events, path) <= 1,
    decreases events.len(),
{
    if events.len() > 0 {
        let next = step(session, events.first());
        lemma_step_keeps_settled(session, events.first());
        if completes(events.first(), path) {
            lemma_stored_module_does_not_run(next, events.drop_first(), path);
        } else {
            lemma_module_runs_at_most_once(next, events.drop_first(), path);
        }
    }
}

/// Every load of `path` that ends among the events ends with the module run
/// to its end.
pub open spec fn loads_complete<V>(events: Seq<Event<V>>, path: Seq<char>) -> bool {
    forall|i: int|
        0 <= i < events.len() && (#[trigger] events[i]) is End && events[i]->End_0 == path
            ==> events[i]->End_1 is Completed
}

/// What holds of every load among the events holds of those after the first
/// event.
proof fn lemma_later_loads_complete<V>(events: Seq<Event<V>>, path: Seq<char>)
    requires
        events.len() > 0,
        loads_complete(events, path),
    ensures
        loads_complete(events.drop_first(), path),
{
    let rest = events.drop_first();
    assert forall|i: int| 0 <= i < rest.len() && (#[trigger] rest[i]) is End && rest[i]->End_0 == path implies rest[i]->End_1 is Completed by {
        assert(rest[i] == events[i + 1]);
    }
}

/// While a load of a path is under way that ends among the events, and every
/// load of the path ends with the module run to its end, the module runs to
/// its end among the events.
proof fn lemma_load_under_way_completes<V>(session: Session<V>, events: Seq<Event<V>>, path: Seq<char>)
    requires
        settled(session),
        orderly(session, events),
        session.loading.contains(path),
        !run(session, events).loading.contains(path),
        loads_complete(events, path),
    ensures
        completed_runs(events, path) >= 1,
    decreases events.len(),
{
    if events.len() > 0 {
        let first = events.first();
        let rest = events.drop_first();
        let next = step(session, first);
        lemma_step_keeps_settled(session, first);
        lemma_later_loads_complete(events, path);
        if first is End && first->End_0 == path {
            assert(events[0] is End);
        } else {
            let i = choose|i: int| 0 <= i < session.loading.len() && session.loading[i] == path;
            assert(next.loading[i] == path);
            lemma_load_under_way_completes(next, rest, path);
        }
    }
}

/// Over a program run that begins with a path not stored, in which the path
/// is imported at least once, every load of it ends, and its module runs to
/// its end whenever it is run: the module runs exactly once, and the path is
/// stored at the end.
pub proof fn lemma_module_runs_exactly_once<V>(session: Session<V>, events: Seq<Event<V>>, path: Seq<char>)
    requires
        settled(session),
        orderly(session, events),
        must_load(session.imports, path),
        !session.loading.contains(path),
        !run(session, events).loading.contains(path),
        exists|i: int| 0 <= i < events.len() && #[trigger] events[i] == Event::<V>::Begin(path),
        loads_complete(events, path),
    ensures
        completed_runs(events, path) == 1,
        !must_load(run(session, events).imports, path),
    decreases events.len(),
{
    let first = events.first();
    let rest = events.drop_first();
    let next = step(session, first);
    lemma_step_keeps_settled(session, first);
    lemma_module_runs_at_most_once(session, events, path);
    lemma_later_loads_complete(events, path);
    if first == Event::<V>::Begin(path) {
        assert(next.loading[next.loading.len() - 1] == path);
        lemma_load_under_way_completes(next, rest, path);
        lemma_run_stores_what_ran(next, rest, path);
    } else {
        let i = choose|i: int| 0 <= i < events.len() && #[trigger] events[i] == Event::<V>::Begin(path);
        assert(rest[i - 1] == events[i]);
        if first is End && first->End_0 == path {
            assert(session.loading[session.loading.len() - 1] == path);
        }
        assert(!next.loading.contains(path)) by {
            if next.loading.contains(path) {
                let k = choose|k: int| 0 <= k < next.loading.len() && next.loading[k] == path;
                if k < session.loading.len() {
                    assert(session.loading[k] == path);
                }
            }
        }
        lemma_module_runs_exactly_once(next, rest, path);
    }
}

/// A module that ran to its end among the events is stored after them.
proof fn lemma_run_stores_what_ran<V>(session: Session<V>, events: Seq<Event<V>>, path: Seq<char>)
    requires
        completed_runs(events, path) >= 1,
    ensures
        !must_load(run(session, events).imports, path),
    decreases events.len(),
{
    if events.len() > 0 {
        let next = step(session, events.first());
        if completes(events.first(), path) {
            lemma_stored_results_stay(next, events.drop_first(), path);
        } else {
            lemma_run_stores_what_ran(next, events.drop_first(), path);
        }
    }
}

} // verus!
