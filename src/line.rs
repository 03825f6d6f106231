use vstd::prelude::*;

use crate::state::{
    cards, from_outside, lemma_step_conserves, outcome, shuffled, step, GameState, Transition, Zones,
};

verus! {

/// Tries `alts` in order from `z` and commits to the first that is feasible;
/// `None` when none is.
pub open spec fn first(z: Zones, alts: Seq<Transition>) -> Option<Zones>
    decreases alts.len(),
{
    if alts.len() == 0 {
        None
    } else {
        match step(z, alts[0]) {
            Some(n) => Some(n),
            None => first(z, alts.drop_first()),
        }
    }
}

/// A combo line: each step is a list of alternatives, of which the first
/// feasible one is taken. The line fails at the first step where none is.
pub open spec fn line(z: Zones, steps: Seq<Seq<Transition>>) -> Option<Zones>
    decreases steps.len(),
{
    if steps.len() == 0 {
        Some(z)
    } else {
        match line(z, steps.drop_last()) {
            Some(y) => first(y, steps.last()),
            None => None,
        }
    }
}

/// How many steps of a line are tried from `z`: all of them when the line
/// succeeds, else those up to and including the first that fails.
pub open spec fn steps_tried(z: Zones, steps: Seq<Seq<Transition>>) -> nat
    decreases steps.len(),
{
    if steps.len() == 0 {
        0
    } else if line(z, steps.drop_last()) is Some {
        steps_tried(z, steps.drop_last()) + 1
    } else {
        steps_tried(z, steps.drop_last())
    }
}

/// The steps of a line held in vectors, as sequences.
pub open spec fn plan(steps: Seq<Vec<Transition>>) -> Seq<Seq<Transition>> {
    steps.map_values(|v: Vec<Transition>| v@)
}

/// Tries each of `alts` on its own copy of `game`, in order, and returns the
/// first that succeeds.
pub fn first_feasible(game: &GameState, alts: &Vec<Transition>) -> (r: Option<GameState>)
    ensures
        outcome(r) == first(game@, alts@),
{
    let mut i: usize = 0;
    assert(alts@.skip(0) =~= alts@);
    while i < alts.len()
        invariant
            i <= alts.len(),
            first(game@, alts@) == first(game@, alts@.skip(i as int)),
        decreases alts.len() - i,
    {
        assert(alts@.skip(i as int).drop_first() =~= alts@.skip(i + 1));
        let r = game.fork().apply(alts[i]);
        if r.is_some() {
            return r;
        }
        i = i + 1;
    }
    None
}

/// Once a step of a line fails, the line fails, and no later step is tried.
pub proof fn lemma_line_stops(z: Zones, steps: Seq<Seq<Transition>>, k: int)
    requires
        0 <= k < steps.len(),
        line(z, steps.take(k)) is Some,
        line(z, steps.take(k + 1)) is None,
    ensures
        line(z, steps) is None,
        steps_tried(z, steps) == k + 1,
    decreases steps.len(),
{
    if steps.len() == k + 1 {
        assert(steps.take(k + 1) =~= steps);
        assert(steps.take(k + 1).drop_last() =~= steps.take(k));
        lemma_all_tried(z, steps.take(k));
    } else {
        let s = steps.drop_last();
        assert(s.take(k) =~= steps.take(k));
        assert(s.take(k + 1) =~= steps.take(k + 1));
        lemma_line_stops(z, s, k);
    }
}

/// A line that succeeds has tried every one of its steps.
pub proof fn lemma_all_tried(z: Zones, steps: Seq<Seq<Transition>>)
    requires
        line(z, steps) is Some,
    ensures
        steps_tried(z, steps) == steps.len(),
    decreases steps.len(),
{
    if steps.len() > 0 {
        lemma_all_tried(z, steps.drop_last());
    }
}

/// Runs a combo line from `game`: its outcome, and how many of its steps were
/// tried.
pub fn run_line(game: GameState, steps: &Vec<Vec<Transition>>) -> (r: (Option<GameState>, usize))
    ensures
        outcome(r.0) == line(game@, plan(steps@)),
        r.1 == steps_tried(game@, plan(steps@)),
{
    let ghost z = game@;
    let ghost p = plan(steps@);
    let mut cur = game;
    let mut i: usize = 0;
    assert(p.take(0) =~= Seq::<Seq<Transition>>::empty());
    while i < steps.len()
        invariant
            z == game@,
            p == plan(steps@),
            p.len() == steps.len(),
            i <= steps.len(),
            line(z, p.take(i as int)) == Some(cur@),
            steps_tried(z, p.take(i as int)) == i,
        decreases steps.len() - i,
    {
        assert(p.take(i + 1).drop_last() =~= p.take(i as int));
        assert(p.take(i + 1).last() == steps@[i as int]@);
        match first_feasible(&cur, &steps[i]) {
            Some(next) => {
                cur = next;
            },
            None => {
                proof {
                    lemma_line_stops(z, p, i as int);
                }
                return (None, i + 1);
            },
        }
        i = i + 1;
    }
    assert(p.take(i as int) =~= p);
    (Some(cur), i)
}

/// Ordered fallback commits to the first feasible alternative: when `a` is
/// feasible, trying `a` before `rest` gives what `a` alone gives.
pub proof fn lemma_first_priority(z: Zones, a: Transition, rest: Seq<Transition>)
    requires
        step(z, a) is Some,
    ensures
        first(z, seq![a] + rest) == step(z, a),
{
    assert((seq![a] + rest)[0] == a);
}

/// When `a` is infeasible, ordered fallback goes on with the alternatives
/// after it.
pub proof fn lemma_first_skips(z: Zones, a: Transition, rest: Seq<Transition>)
    requires
        step(z, a) is None,
    ensures
        first(z, seq![a] + rest) == first(z, rest),
{
    assert((seq![a] + rest)[0] == a);
    assert((seq![a] + rest).drop_first() =~= rest);
}

/// No alternative of any step brings a card in from outside the zones.
pub open spec fn moves_only(steps: Seq<Seq<Transition>>) -> bool {
    forall|i: int, j: int|
        0 <= i < steps.len() && 0 <= j < steps[i].len() ==> !from_outside(#[trigger] steps[i][j])
}

proof fn lemma_first_conserves(z: Zones, alts: Seq<Transition>)
    requires
        forall|j: int| 0 <= j < alts.len() ==> !from_outside(#[trigger] alts[j]),
        first(z, alts) is Some,
    ensures
        cards(first(z, alts)->0) == cards(z),
    decreases alts.len(),
{
    if step(z, alts[0]) is Some {
        lemma_step_conserves(z, alts[0]);
    } else {
        let rest = alts.drop_first();
        assert forall|j: int| 0 <= j < rest.len() implies !from_outside(#[trigger] rest[j]) by {
            assert(rest[j] == alts[j + 1]);
        }
        lemma_first_conserves(z, rest);
    }
}

/// A line of transitions that only move cards keeps every card of the five
/// zones: each card is counted as often at the end as at the start.
pub proof fn lemma_line_conserves(z: Zones, steps: Seq<Seq<Transition>>)
    requires
        moves_only(steps),
        line(z, steps) is Some,
    ensures
        cards(line(z, steps)->0) == cards(z),
    decreases steps.len(),
{
    if steps.len() > 0 {
        let init = steps.drop_last();
        assert forall|i: int, j: int| 0 <= i < init.len() && 0 <= j < init[i].len() implies
            !from_outside(#[trigger] init[i][j]) by {
            assert(init[i] == steps[i]);
        }
        lemma_line_conserves(z, init);
        let y = line(z, init)->0;
        let last = steps.last();
        assert forall|j: int| 0 <= j < last.len() implies !from_outside(#[trigger] last[j]) by {
            assert(last == steps[steps.len() - 1]);
        }
        lemma_first_conserves(y, last);
    }
}

/// Shuffling the deck keeps every card of the five zones.
pub proof fn lemma_shuffle_conserves(before: Zones, after: Zones)
    requires
        shuffled(before, after),
    ensures
        cards(after) == cards(before),
{
}

} // verus!
