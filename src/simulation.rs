use vstd::prelude::*;

use crate::card::Card;
use crate::combo::{
    analyse, card_destruction_outcome, lemma_unizombie_in_hand_reached, objectives, prepared, PlayOptions,
};
use crate::state::{dealt, shuffle_cards, GameState, Zones, HAND_SIZE};

verus! {

/// The named cards of a deck list, each repeated its count of times, in list
/// order.
pub open spec fn expand(counts: Seq<(Card, usize)>) -> Seq<Card>
    decreases counts.len(),
{
    if counts.len() == 0 {
        seq![]
    } else {
        expand(counts.drop_last()) + Seq::new(counts.last().1 as nat, |i: int| counts.last().0)
    }
}

/// The deck of `size` cards that a deck list describes: its named cards, then
/// `Other` up to `size`. `None` when the named cards alone are more than `size`.
pub open spec fn deck_list(counts: Seq<(Card, usize)>, size: nat) -> Option<Seq<Card>> {
    let named = expand(counts);
    if named.len() <= size {
        Some(named + Seq::new((size - named.len()) as nat, |i: int| Card::Other))
    } else {
        None
    }
}

/// Builds the deck that `counts` and `size` describe, in list order.
pub fn build_deck(counts: &Vec<(Card, usize)>, size: usize) -> (r: Option<Vec<Card>>)
    ensures
        match r {
            Some(d) => deck_list(counts@, size as nat) == Some(d@),
            None => deck_list(counts@, size as nat) is None,
        },
{
    let mut deck: Vec<Card> = Vec::new();
    let mut k: usize = 0;
    assert(counts@.take(0) =~= Seq::<(Card, usize)>::empty());
    while k < counts.len()
        invariant
            k <= counts.len(),
            deck@ == expand(counts@.take(k as int)),
            deck@.len() <= size,
        decreases counts.len() - k,
    {
        let (card, n) = counts[k];
        assert(counts@.take(k + 1).drop_last() =~= counts@.take(k as int));
        if n > size - deck.len() {
            proof {
                lemma_expand_grows(counts@, k + 1);
            }
            return None;
        }
        let ghost before = deck@;
        let mut j: usize = 0;
        while j < n
            invariant
                j <= n,
                deck@ == before + Seq::new(j as nat, |i: int| card),
            decreases n - j,
        {
            deck.push(card);
            j = j + 1;
            assert(deck@ =~= before + Seq::new(j as nat, |i: int| card));
        }
        k = k + 1;
    }
    assert(counts@.take(k as int) =~= counts@);
    let ghost named = deck@;
    while deck.len() < size
        invariant
            named.len() <= size,
            deck@.len() <= size,
            deck@ == named + Seq::new((deck@.len() - named.len()) as nat, |i: int| Card::Other),
            deck@.len() >= named.len(),
        decreases size - deck.len(),
    {
        deck.push(Card::Other);
        assert(deck@ =~= named + Seq::new((deck@.len() - named.len()) as nat, |i: int| Card::Other));
    }
    Some(deck)
}

/// The named part of a deck list only grows as entries are added.
proof fn lemma_expand_grows(counts: Seq<(Card, usize)>, k: int)
    requires
        0 <= k <= counts.len(),
    ensures
        expand(counts.take(k)).len() <= expand(counts).len(),
    decreases counts.len(),
{
    if k < counts.len() {
        assert(counts.drop_last().take(k) =~= counts.take(k));
        lemma_expand_grows(counts.drop_last(), k);
    } else {
        assert(counts.take(k) =~= counts);
    }
}

/// Shuffles `deck` and deals the opening hand from it.
pub fn shuffle_and_deal(deck: Vec<Card>) -> (r: GameState)
    requires
        deck.len() >= HAND_SIZE,
    ensures
        exists|d: Seq<Card>| d.to_multiset() == deck@.to_multiset() && r@ == dealt(d),
{
    let mut cards = deck;
    shuffle_cards(&mut cards);
    proof {
        broadcast use vstd::seq_lib::group_to_multiset_ensures;

        assert(cards@.len() == cards@.to_multiset().len());
    }
    GameState::from(cards)
}

/// The deck that `counts` and `size` describe, when it is valid for a game:
/// its named cards fit in `size`, and it has enough cards for a hand.
pub open spec fn playable_deck(counts: Seq<(Card, usize)>, size: nat) -> Option<Seq<Card>> {
    match deck_list(counts, size) {
        Some(d) => if d.len() >= HAND_SIZE {
            Some(d)
        } else {
            None
        },
        None => None,
    }
}

/// Builds the deck that `counts` and `size` describe, shuffles it and deals
/// the opening hand. `None` when the deck list is invalid.
pub fn generate_game(counts: &Vec<(Card, usize)>, size: usize) -> (r: Option<GameState>)
    ensures
        match playable_deck(counts@, size as nat) {
            Some(d) => r matches Some(g) && exists|e: Seq<Card>| e.to_multiset() == d.to_multiset() && g@ == dealt(e),
            None => r is None,
        },
{
    match build_deck(counts, size) {
        Some(deck) => if deck.len() >= HAND_SIZE {
            Some(shuffle_and_deal(deck))
        } else {
            None
        },
        None => None,
    }
}

/// Whether `plays` holds `p`.
fn holds(plays: &Vec<PlayOptions>, p: PlayOptions) -> (r: bool)
    ensures
        r == plays@.contains(p),
{
    let mut i: usize = 0;
    while i < plays.len()
        invariant
            i <= plays.len(),
            forall|j: int| 0 <= j < i ==> plays@[j] != p,
        decreases plays.len() - i,
    {
        if plays[i] == p {
            assert(plays@[i as int] == p);
            return true;
        }
        i = i + 1;
    }
    false
}

/// Every card of `d` is `c`.
pub open spec fn only(d: Seq<Card>, c: Card) -> bool {
    forall|i: int| 0 <= i < d.len() ==> d[i] == c
}

/// A deck in any order holds the same cards: one of a single card stays so.
proof fn lemma_only_kept(d: Seq<Card>, e: Seq<Card>, c: Card)
    requires
        only(d, c),
        e.to_multiset() == d.to_multiset(),
    ensures
        only(e, c),
        e.len() == d.len(),
{
    broadcast use vstd::seq_lib::group_to_multiset_ensures;

    assert forall|i: int| 0 <= i < e.len() implies e[i] == c by {
        assert(e.contains(e[i]));
        vstd::seq_lib::to_multiset_contains(e, e[i]);
        vstd::seq_lib::to_multiset_contains(d, e[i]);
    }
    assert(e.len() == e.to_multiset().len());
    assert(d.len() == d.to_multiset().len());
}

/// A trial of deck `d` may start from `g` and see `o` come of Card
/// Destruction: `g` is dealt from some order of `d`, and `o` is an outcome
/// that Card Destruction may give once the trial is prepared.
pub open spec fn possible_trial(d: Seq<Card>, g: Zones, o: Option<Zones>) -> bool {
    &&& exists|e: Seq<Card>| e.to_multiset() == d.to_multiset() && g == dealt(e)
    &&& (prepared(g) matches Some(y) ==> card_destruction_outcome(y, o))
}

/// How many of the trials that started from `games`, with Card Destruction
/// giving `outs`, reached the Uni-Zombie objective.
pub open spec fn reached(games: Seq<Zones>, outs: Seq<Option<Zones>>) -> nat
    decreases games.len(),
{
    if games.len() == 0 || outs.len() == 0 {
        0
    } else {
        reached(games.drop_last(), outs.drop_last()) + if objectives(games.last(), outs.last()).contains(
            PlayOptions::SummonUniZombie,
        ) {
            1nat
        } else {
            0nat
        }
    }
}

/// Runs `runs` trials of the deck that `counts` and `size` describe, and
/// returns for each objective of [`PlayOptions::all`] the number of trials
/// that reached it: each trial starts from some shuffle of the deck and sees
/// some outcome of Card Destruction, and the count is of those trials that
/// reach the objective. `None` when the deck list is invalid. A deck made only
/// of Uni-Zombie reaches the Uni-Zombie objective in every trial.
pub fn simulate(counts: &Vec<(Card, usize)>, size: usize, runs: u64) -> (r: Option<Vec<u64>>)
    ensures
        r is Some <==> playable_deck(counts@, size as nat) is Some,
        r matches Some(v) ==> v@.len() == 1 && v@[0] <= runs,
        r matches Some(v) ==> exists|games: Seq<Zones>, outs: Seq<Option<Zones>>|
            {
                &&& games.len() == runs
                &&& outs.len() == runs
                &&& forall|t: int|
                    0 <= t < runs ==> #[trigger] possible_trial(
                        playable_deck(counts@, size as nat)->0,
                        games[t],
                        outs[t],
                    )
                &&& v@[0] == reached(games, outs)
            },
        r matches Some(v) ==> (only(playable_deck(counts@, size as nat)->0, Card::UniZombie) ==> v@[0] == runs),
{
    let deck = match build_deck(counts, size) {
        Some(d) => d,
        None => return None,
    };
    if deck.len() < HAND_SIZE {
        return None;
    }
    let options = PlayOptions::all();
    let mut totals: Vec<u64> = vec![0];
    let ghost all_uni = only(deck@, Card::UniZombie);
    let ghost mut games: Seq<Zones> = seq![];
    let ghost mut outs: Seq<Option<Zones>> = seq![];
    let mut t: u64 = 0;
    while t < runs
        invariant
            t <= runs,
            deck@.len() >= HAND_SIZE,
            options@ == seq![PlayOptions::SummonUniZombie],
            totals@.len() == 1,
            totals@[0] <= t,
            all_uni == only(deck@, Card::UniZombie),
            all_uni ==> totals@[0] == t,
            games.len() == t,
            outs.len() == t,
            forall|i: int| 0 <= i < t ==> #[trigger] possible_trial(deck@, games[i], outs[i]),
            totals@[0] == reached(games, outs),
        decreases runs - t,
    {
        let game = shuffle_and_deal(deck.clone());
        let ghost e = choose|e: Seq<Card>| e.to_multiset() == deck@.to_multiset() && game@ == dealt(e);
        let ghost z = game@;
        let plays = analyse(game);
        let ghost o = choose|o: Option<Zones>|
            (prepared(z) matches Some(y) ==> card_destruction_outcome(y, o)) && plays@ == objectives(z, o);
        let hit = holds(&plays, options[0]);
        if hit {
            totals.set(0, totals[0] + 1);
        }
        proof {
            assert(possible_trial(deck@, z, o));
            let g2 = games.push(z);
            let o2 = outs.push(o);
            assert(g2.drop_last() =~= games);
            assert(o2.drop_last() =~= outs);
            assert forall|i: int| 0 <= i < t + 1 implies #[trigger] possible_trial(deck@, g2[i], o2[i]) by {
                if i < t {
                    assert(g2[i] == games[i]);
                    assert(o2[i] == outs[i]);
                }
            }
            games = g2;
            outs = o2;
            if all_uni {
                lemma_only_kept(deck@, e, Card::UniZombie);
                assert(z.hand[0] == Card::UniZombie);
                assert(z.hand.contains(Card::UniZombie));
                assert(!z.hand.contains(Card::UpstartGoblin)) by {
                    if z.hand.contains(Card::UpstartGoblin) {
                        let w = choose|w: int| 0 <= w < z.hand.len() && z.hand[w] == Card::UpstartGoblin;
                        assert(z.hand[w] == e[w]);
                    }
                }
                lemma_unizombie_in_hand_reached(z, o);
                assert(plays@[0] == PlayOptions::SummonUniZombie);
            }
        }
        t = t + 1;
    }
    Some(totals)
}

} // verus!
