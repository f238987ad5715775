//! Runs of a state machine: the states that a sequence of events leads
//! through, and how the machine's stage moves along them.
use vstd::prelude::*;

verus! {

/// The states that `events` lead through from `s`, one step per event,
/// stopping at the first step that fails (`None`).
pub open spec fn run<S, E>(step: spec_fn(S, E) -> Option<S>, s: S, events: Seq<E>) -> Seq<S>
    decreases events.len(),
{
    if events.len() == 0 {
        seq![s]
    } else {
        match step(s, events[0]) {
            Some(t) => seq![s] + run(step, t, events.drop_first()),
            None => seq![s],
        }
    }
}

/// How many times the stage changes from one state to the next in `states`.
pub open spec fn stage_changes<S>(stage: spec_fn(S) -> nat, states: Seq<S>) -> nat
    decreases states.len(),
{
    if states.len() < 2 {
        0
    } else {
        stage_changes(stage, states.drop_first()) + if stage(states[1]) != stage(states[0]) {
            1nat
        } else {
            0nat
        }
    }
}

/// Whether every step that succeeds keeps the stage or moves it on by one.
pub open spec fn steps_at_most_one_stage<S, E>(
    step: spec_fn(S, E) -> Option<S>,
    stage: spec_fn(S) -> nat,
) -> bool {
    forall|s: S, e: E| #[trigger]
        step(s, e) is Some ==> stage(s) <= stage(step(s, e)->0) <= stage(s) + 1
}

/// Along a run of a machine whose steps keep the stage or move it on by
/// one, the stage never goes back, moves by at most one from state to
/// state, and ends as far from where it began as the number of times it
/// changed.
pub proof fn lemma_run_stages<S, E>(
    step: spec_fn(S, E) -> Option<S>,
    stage: spec_fn(S) -> nat,
    s: S,
    events: Seq<E>,
)
    requires
        steps_at_most_one_stage(step, stage),
    ensures
        run(step, s, events).len() >= 1,
        run(step, s, events)[0] == s,
        forall|i: int, j: int|
            0 <= i <= j < run(step, s, events).len() ==> stage(#[trigger] run(step, s, events)[i])
                <= stage(#[trigger] run(step, s, events)[j]),
        forall|i: int|
            0 <= i < run(step, s, events).len() - 1 ==> stage(#[trigger] run(step, s, events)[i + 1])
                <= stage(run(step, s, events)[i]) + 1,
        stage(run(step, s, events).last()) == stage(s) + stage_changes(stage, run(step, s, events)),
    decreases events.len(),
{
    let st = run(step, s, events);
    if events.len() > 0 {
        if let Some(t) = step(s, events[0]) {
            let rest = run(step, t, events.drop_first());
            lemma_run_stages(step, stage, t, events.drop_first());
            assert(step(s, events[0]) is Some);
            assert(stage(s) <= stage(t) <= stage(s) + 1);
            assert(st =~= seq![s] + rest);
            assert(st.drop_first() =~= rest);
            assert(st[1] == t);
            assert forall|i: int, j: int| 0 <= i <= j < st.len() implies stage(#[trigger] st[i])
                <= stage(#[trigger] st[j]) by {
                if i > 0 {
                    assert(st[i] == rest[i - 1]);
                    assert(st[j] == rest[j - 1]);
                } else if j > 0 {
                    assert(st[j] == rest[j - 1]);
                    assert(stage(rest[0]) <= stage(rest[j - 1]));
                }
            }
            assert forall|i: int| 0 <= i < st.len() - 1 implies stage(#[trigger] st[i + 1]) <= stage(
                st[i],
            ) + 1 by {
                if i > 0 {
                    assert(st[i] == rest[i - 1]);
                    assert(st[i + 1] == rest[i]);
                }
            }
            assert(st.last() == rest.last());
        }
    }
}

} // verus!
