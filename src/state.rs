use vstd::multiset::Multiset;
use vstd::prelude::*;

use crate::card::Card;

use rand::seq::SliceRandom;

verus! {

/// The five zones of a game, as mathematical sequences.
pub struct Zones {
    pub hand: Seq<Card>,
    pub deck: Seq<Card>,
    pub field: Seq<Card>,
    pub grave: Seq<Card>,
    pub banished: Seq<Card>,
}

/// Position of the first occurrence of `c` in `s`, or -1 when there is none.
pub open spec fn index_of(s: Seq<Card>, c: Card) -> int
    decreases s.len(),
{
    if s.len() == 0 {
        -1
    } else if s[0] == c {
        0
    } else {
        let k = index_of(s.drop_first(), c);
        if k < 0 {
            -1
        } else {
            k + 1
        }
    }
}

/// `s` with its first occurrence of `c` taken out.
pub open spec fn take_first(s: Seq<Card>, c: Card) -> Seq<Card> {
    s.remove(index_of(s, c))
}

/// `index_of` finds the first occurrence exactly when there is one.
pub proof fn lemma_index_of(s: Seq<Card>, c: Card)
    ensures
        s.contains(c) ==> {
            &&& 0 <= index_of(s, c) < s.len()
            &&& s[index_of(s, c)] == c
            &&& forall|j: int| 0 <= j < index_of(s, c) ==> s[j] != c
        },
        !s.contains(c) ==> index_of(s, c) == -1,
    decreases s.len(),
{
    if s.len() > 0 {
        let t = s.drop_first();
        lemma_index_of(t, c);
        if s[0] != c {
            if s.contains(c) {
                let w = choose|w: int| 0 <= w < s.len() && s[w] == c;
                assert(t[w - 1] == c);
            }
            if t.contains(c) {
                let w = choose|w: int| 0 <= w < t.len() && t[w] == c;
                assert(s[w + 1] == c);
                assert forall|j: int| 0 <= j < index_of(s, c) implies s[j] != c by {
                    if j > 0 {
                        assert(s[j] == t[j - 1]);
                    }
                }
            }
        }
    }
}

/// Finds the first position of `card` in `v`.
fn position(v: &Vec<Card>, card: Card) -> (r: Option<usize>)
    ensures
        r is Some <==> v@.contains(card),
        r matches Some(i) ==> i == index_of(v@, card),
{
    proof {
        lemma_index_of(v@, card);
    }
    let mut i: usize = 0;
    while i < v.len()
        invariant
            i <= v.len(),
            forall|j: int| 0 <= j < i ==> v@[j] != card,
        decreases v.len() - i,
    {
        if v[i] == card {
            proof {
                lemma_index_of(v@, card);
                assert(v@[i as int] == card);
            }
            return Some(i);
        }
        i = i + 1;
    }
    None
}

/// Takes the first `card` out of `from`, reporting whether there was one.
fn take_card(from: &mut Vec<Card>, card: Card) -> (found: bool)
    ensures
        found == old(from)@.contains(card),
        found ==> final(from)@ == take_first(old(from)@, card),
        !found ==> final(from)@ == old(from)@,
{
    proof {
        lemma_index_of(old(from)@, card);
    }
    match position(from, card) {
        Some(i) => {
            from.remove(i);
            true
        },
        None => false,
    }
}

/// One step that a combo line can take. Each variant names the operation of
/// [`GameState`] with the same name.
#[derive(Debug, Clone, Copy, PartialEq, Eq, Structural)]
pub enum Transition {
    SummonFromHand(Card),
    ReturnToHand(Card),
    SummonFromDeck(Card),
    SendToGrave(Card),
    MillToGrave(Card),
    Discard(Card),
    Activate(Card),
    SetCard(Card),
    SummonFromExtraDeck(Card),
    SummonFromGrave(Card),
    BanishFromGrave(Card),
    DiscardHand,
    Draw(usize),
}

/// What a transition does to the zones: the new zones, or `None` when its
/// precondition does not hold (the transition is infeasible).
pub open spec fn step(z: Zones, t: Transition) -> Option<Zones> {
    match t {
        Transition::SummonFromHand(c) | Transition::SetCard(c) => if z.hand.contains(c) {
            Some(Zones { hand: take_first(z.hand, c), field: z.field.push(c), ..z })
        } else {
            None
        },
        Transition::ReturnToHand(c) => if z.field.contains(c) {
            Some(Zones { field: take_first(z.field, c), hand: z.hand.push(c), ..z })
        } else {
            None
        },
        Transition::SummonFromDeck(c) => if z.deck.contains(c) {
            Some(Zones { deck: take_first(z.deck, c), field: z.field.push(c), ..z })
        } else {
            None
        },
        Transition::SendToGrave(c) => if z.field.contains(c) {
            Some(Zones { field: take_first(z.field, c), grave: z.grave.push(c), ..z })
        } else {
            None
        },
        Transition::MillToGrave(c) => if z.deck.contains(c) {
            Some(Zones { deck: take_first(z.deck, c), grave: z.grave.push(c), ..z })
        } else {
            None
        },
        Transition::Discard(c) | Transition::Activate(c) => if z.hand.contains(c) {
            Some(Zones { hand: take_first(z.hand, c), grave: z.grave.push(c), ..z })
        } else {
            None
        },
        Transition::SummonFromExtraDeck(c) => Some(Zones { field: z.field.push(c), ..z }),
        Transition::SummonFromGrave(c) => if z.grave.contains(c) {
            Some(Zones { grave: take_first(z.grave, c), field: z.field.push(c), ..z })
        } else {
            None
        },
        Transition::BanishFromGrave(c) => if z.grave.contains(c) {
            Some(Zones { grave: take_first(z.grave, c), banished: z.banished.push(c), ..z })
        } else {
            None
        },
        Transition::DiscardHand => Some(
            Zones { hand: Seq::empty(), grave: z.grave + z.hand.reverse(), ..z },
        ),
        Transition::Draw(n) => if n <= z.deck.len() {
            Some(Zones { hand: z.hand + z.deck.take(n as int), deck: z.deck.skip(n as int), ..z })
        } else {
            None
        },
    }
}

/// What a transition needs of the zones: the card it moves is in the zone it
/// takes it from, or the deck holds the cards to draw.
pub open spec fn feasible(z: Zones, t: Transition) -> bool {
    match t {
        Transition::SummonFromHand(c) | Transition::SetCard(c) | Transition::Discard(c)
        | Transition::Activate(c) => z.hand.contains(c),
        Transition::ReturnToHand(c) | Transition::SendToGrave(c) => z.field.contains(c),
        Transition::SummonFromDeck(c) | Transition::MillToGrave(c) => z.deck.contains(c),
        Transition::SummonFromGrave(c) | Transition::BanishFromGrave(c) => z.grave.contains(c),
        Transition::SummonFromExtraDeck(_) | Transition::DiscardHand => true,
        Transition::Draw(n) => n <= z.deck.len(),
    }
}

/// A transition is infeasible exactly when its precondition is false; it
/// then reports failure and gives no state.
pub proof fn lemma_infeasible_exactly(z: Zones, t: Transition)
    ensures
        step(z, t) is None <==> !feasible(z, t),
{
}

/// Every card in the five zones, counted with multiplicity.
pub open spec fn cards(z: Zones) -> Multiset<Card> {
    z.hand.to_multiset().add(z.deck.to_multiset()).add(z.field.to_multiset()).add(
        z.grave.to_multiset(),
    ).add(z.banished.to_multiset())
}

/// Whether `t` brings a card in from outside the five zones.
pub open spec fn from_outside(t: Transition) -> bool {
    t is SummonFromExtraDeck
}

/// Taking out the first `c` of a sequence that holds one takes one `c` out
/// of its multiset.
proof fn lemma_take_first_multiset(s: Seq<Card>, c: Card)
    requires
        s.contains(c),
    ensures
        take_first(s, c).to_multiset() == s.to_multiset().remove(c),
{
    lemma_index_of(s, c);
    vstd::seq_lib::to_multiset_remove(s, index_of(s, c));
}

/// A sequence in reverse holds the same cards.
proof fn lemma_reverse_multiset(s: Seq<Card>)
    ensures
        s.reverse().to_multiset() == s.to_multiset(),
    decreases s.len(),
{
    broadcast use vstd::seq_lib::group_to_multiset_ensures;

    if s.len() > 0 {
        let t = s.drop_last();
        lemma_reverse_multiset(t);
        assert(s.reverse() =~= seq![s.last()] + t.reverse());
        vstd::seq_lib::lemma_multiset_commutative(seq![s.last()], t.reverse());
        assert(s =~= t.push(s.last()));
        assert(seq![s.last()] =~= Seq::<Card>::empty().push(s.last()));
        assert(s.reverse().to_multiset() =~= s.to_multiset());
    }
}

/// A feasible transition that brings no card in from outside keeps the
/// cards of the five zones: it only moves them.
pub proof fn lemma_step_conserves(z: Zones, t: Transition)
    requires
        !from_outside(t),
        step(z, t) is Some,
    ensures
        cards(step(z, t)->0) == cards(z),
{
    broadcast use vstd::seq_lib::group_to_multiset_ensures;

    let y = step(z, t)->0;
    match t {
        Transition::SummonFromHand(c) | Transition::SetCard(c) | Transition::Discard(c)
        | Transition::Activate(c) => {
            lemma_take_first_multiset(z.hand, c);
        },
        Transition::ReturnToHand(c) | Transition::SendToGrave(c) => {
            lemma_take_first_multiset(z.field, c);
        },
        Transition::SummonFromDeck(c) | Transition::MillToGrave(c) => {
            lemma_take_first_multiset(z.deck, c);
        },
        Transition::SummonFromGrave(c) | Transition::BanishFromGrave(c) => {
            lemma_take_first_multiset(z.grave, c);
        },
        Transition::SummonFromExtraDeck(_) => {},
        Transition::DiscardHand => {
            lemma_reverse_multiset(z.hand);
            vstd::seq_lib::lemma_multiset_commutative(z.grave, z.hand.reverse());
            assert(y.hand.to_multiset() =~= Multiset::empty());
        },
        Transition::Draw(n) => {
            vstd::seq_lib::lemma_multiset_commutative(z.hand, z.deck.take(n as int));
            vstd::seq_lib::lemma_multiset_commutative(z.deck.take(n as int), z.deck.skip(n as int));
            assert(z.deck =~= z.deck.take(n as int) + z.deck.skip(n as int));
        },
    }
    assert(cards(y) =~= cards(z));
}

/// Names of the five zones.
#[derive(Debug, Clone, Copy, PartialEq, Eq, Structural)]
pub enum Zone {
    Hand,
    Deck,
    Field,
    Grave,
    Banished,
}

/// The zone `k` of `z`.
pub open spec fn zone(z: Zones, k: Zone) -> Seq<Card> {
    match k {
        Zone::Hand => z.hand,
        Zone::Deck => z.deck,
        Zone::Field => z.field,
        Zone::Grave => z.grave,
        Zone::Banished => z.banished,
    }
}

/// How many copies of `c` a zone holds.
pub open spec fn count(s: Seq<Card>, c: Card) -> int {
    s.to_multiset().count(c) as int
}

/// The zone a transition takes one card from and the zone it puts it in,
/// for the transitions that move exactly one card between two zones.
pub open spec fn route(t: Transition) -> Option<(Zone, Zone)> {
    match t {
        Transition::SummonFromHand(_) | Transition::SetCard(_) => Some((Zone::Hand, Zone::Field)),
        Transition::ReturnToHand(_) => Some((Zone::Field, Zone::Hand)),
        Transition::SummonFromDeck(_) => Some((Zone::Deck, Zone::Field)),
        Transition::SendToGrave(_) => Some((Zone::Field, Zone::Grave)),
        Transition::MillToGrave(_) => Some((Zone::Deck, Zone::Grave)),
        Transition::Discard(_) | Transition::Activate(_) => Some((Zone::Hand, Zone::Grave)),
        Transition::SummonFromGrave(_) => Some((Zone::Grave, Zone::Field)),
        Transition::BanishFromGrave(_) => Some((Zone::Grave, Zone::Banished)),
        _ => None,
    }
}

/// A transition that moves one card changes the count of any card in any
/// zone by at most one, and keeps the sum over its two zones.
pub proof fn lemma_single_move(z: Zones, t: Transition, d: Card)
    requires
        route(t) is Some,
        step(z, t) is Some,
    ensures
        forall|k: Zone|
            -1 <= #[trigger] count(zone(step(z, t)->0, k), d) - count(zone(z, k), d) <= 1,
        ({
            let (from, to) = route(t)->0;
            let y = step(z, t)->0;
            count(zone(y, from), d) + count(zone(y, to), d) == count(zone(z, from), d) + count(
                zone(z, to),
                d,
            )
        }),
{
    let y = step(z, t)->0;
    match t {
        Transition::SummonFromHand(c) | Transition::SetCard(c) => {
            lemma_move_counts(z.hand, z.field, c, d);
        },
        Transition::Discard(c) | Transition::Activate(c) => {
            lemma_move_counts(z.hand, z.grave, c, d);
        },
        Transition::ReturnToHand(c) => {
            lemma_move_counts(z.field, z.hand, c, d);
        },
        Transition::SendToGrave(c) => {
            lemma_move_counts(z.field, z.grave, c, d);
        },
        Transition::SummonFromDeck(c) => {
            lemma_move_counts(z.deck, z.field, c, d);
        },
        Transition::MillToGrave(c) => {
            lemma_move_counts(z.deck, z.grave, c, d);
        },
        Transition::SummonFromGrave(c) => {
            lemma_move_counts(z.grave, z.field, c, d);
        },
        Transition::BanishFromGrave(c) => {
            lemma_move_counts(z.grave, z.banished, c, d);
        },
        _ => {},
    }
    assert forall|k: Zone| -1 <= #[trigger] count(zone(y, k), d) - count(zone(z, k), d) <= 1 by {
        match k {
            Zone::Hand => {},
            Zone::Deck => {},
            Zone::Field => {},
            Zone::Grave => {},
            Zone::Banished => {},
        }
    }
}

/// Moving the first `c` of `a` to the end of `b`: what it does to the count
/// of each card `d` in the two.
proof fn lemma_move_counts(a: Seq<Card>, b: Seq<Card>, c: Card, d: Card)
    requires
        a.contains(c),
    ensures
        count(take_first(a, c), d) == count(a, d) - if d == c { 1int } else { 0int },
        count(b.push(c), d) == count(b, d) + if d == c { 1int } else { 0int },
{
    broadcast use vstd::seq_lib::group_to_multiset_ensures;

    lemma_take_first_multiset(a, c);
    lemma_index_of(a, c);
}

/// The five zones of one game. Zones are ordered, but only the deck's order
/// means anything: cards are drawn from its front.
#[derive(Debug, Clone, PartialEq, Eq)]
pub struct GameState {
    pub hand: Vec<Card>,
    pub deck: Vec<Card>,
    pub field: Vec<Card>,
    pub grave: Vec<Card>,
    pub banished: Vec<Card>,
}

impl View for GameState {
    type V = Zones;

    open spec fn view(&self) -> Zones {
        Zones {
            hand: self.hand@,
            deck: self.deck@,
            field: self.field@,
            grave: self.grave@,
            banished: self.banished@,
        }
    }
}

/// `after` is `before` with its deck in some order, and nothing else changed.
pub open spec fn shuffled(before: Zones, after: Zones) -> bool {
    &&& after.deck.to_multiset() == before.deck.to_multiset()
    &&& after.hand == before.hand
    &&& after.field == before.field
    &&& after.grave == before.grave
    &&& after.banished == before.banished
}

/// Number of cards dealt to the opening hand.
pub const HAND_SIZE: usize = 5;

/// The zones dealt from a deck in draw order: the first cards make the hand,
/// the rest stay in the deck, and the other zones are empty.
pub open spec fn dealt(d: Seq<Card>) -> Zones {
    Zones {
        hand: d.take(HAND_SIZE as int),
        deck: d.skip(HAND_SIZE as int),
        field: Seq::empty(),
        grave: Seq::empty(),
        banished: Seq::empty(),
    }
}

/// The zones of an outcome, if there is one.
pub open spec fn outcome(r: Option<GameState>) -> Option<Zones> {
    match r {
        Some(g) => Some(g@),
        None => None,
    }
}

/// Relies on rand's `SliceRandom::shuffle`, driven by `thread_rng`: it only
/// swaps elements, so the cards stay the same and only their order changes.
#[verifier::external_body]
pub(crate) fn shuffle_cards(v: &mut Vec<Card>)
    ensures
        final(v)@.to_multiset() == old(v)@.to_multiset(),
{
    v.shuffle(&mut rand::thread_rng());
}

impl GameState {
    /// Deals a game from a deck in draw order: its first five cards become the
    /// hand, the rest stay in the deck, and the other zones start empty.
    pub fn from(deck: Vec<Card>) -> (r: GameState)
        requires
            deck.len() >= HAND_SIZE,
        ensures
            r@ == dealt(deck@),
    {
        let mut hand = deck;
        let rest = hand.split_off(HAND_SIZE);
        let r = GameState { hand, deck: rest, field: Vec::new(), grave: Vec::new(), banished: Vec::new() };
        assert(r@.field =~= Seq::<Card>::empty());
        assert(r@.grave =~= Seq::<Card>::empty());
        assert(r@.banished =~= Seq::<Card>::empty());
        r
    }

    /// Whether the hand holds `card`.
    pub fn in_hand(&self, card: Card) -> (r: bool)
        ensures
            r == self@.hand.contains(card),
    {
        position(&self.hand, card).is_some()
    }

    /// Whether the grave holds `card`.
    pub fn in_grave(&self, card: Card) -> (r: bool)
        ensures
            r == self@.grave.contains(card),
    {
        position(&self.grave, card).is_some()
    }

    /// Puts the deck in a random order. Never infeasible; the deck keeps its
    /// cards and every other zone is unchanged.
    pub fn shuffle_deck(self) -> (r: Option<GameState>)
        ensures
            r matches Some(g) && shuffled(self@, g@),
    {
        let mut g = self;
        shuffle_cards(&mut g.deck);
        Some(g)
    }

    /// Moves the whole hand to the grave, last card first. Never infeasible.
    pub fn discard_hand(self) -> (r: Option<GameState>)
        ensures
            outcome(r) == step(self@, Transition::DiscardHand),
    {
        let mut g = self;
        let ghost h = g.hand@;
        let ghost gr = g.grave@;
        let mut next = g.hand.pop();
        while next.is_some()
            invariant
                next matches Some(c) ==> g.hand@.len() < h.len() && c == h[g.hand@.len() as int],
                next is None ==> g.hand@.len() == 0,
                g.hand@ == h.take(g.hand@.len() as int),
                g.hand@.len() <= h.len(),
                g.grave@ == gr + Seq::new(
                    (h.len() - g.hand@.len() - if next is Some { 1int } else { 0int }) as nat,
                    |i: int| h[h.len() - 1 - i],
                ),
                g.deck@ == self@.deck,
                g.field@ == self@.field,
                g.banished@ == self@.banished,
                h == self@.hand,
                gr == self@.grave,
            decreases g.hand@.len() + if next is Some { 1int } else { 0int },
        {
            match next {
                Some(c) => g.grave.push(c),
                None => {},
            }
            next = g.hand.pop();
        }
        assert(g.grave@ =~= gr + h.reverse());
        assert(g.hand@ =~= Seq::<Card>::empty());
        Some(g)
    }

    /// Moves `cards` cards from the front of the deck to the end of the hand,
    /// in order. Infeasible when the deck holds fewer.
    pub fn draw(self, cards: usize) -> (r: Option<GameState>)
        ensures
            outcome(r) == step(self@, Transition::Draw(cards)),
    {
        if cards > self.deck.len() {
            return None;
        }
        let mut g = self;
        let mut k: usize = 0;
        while k < cards
            invariant
                k <= cards <= self@.deck.len(),
                g.hand@ == self@.hand + self@.deck.take(k as int),
                g.deck@ == self@.deck.skip(k as int),
                g.field@ == self@.field,
                g.grave@ == self@.grave,
                g.banished@ == self@.banished,
            decreases cards - k,
        {
            let c = g.deck.remove(0);
            g.hand.push(c);
            k = k + 1;
            assert(g.hand@ =~= self@.hand + self@.deck.take(k as int));
            assert(g.deck@ =~= self@.deck.skip(k as int));
        }
        Some(g)
    }

    /// An independent copy of this state, for trying a branch without
    /// touching the state that the sibling branches start from.
    pub fn fork(&self) -> (r: GameState)
        ensures
            r@ == self@,
    {
        GameState {
            hand: self.hand.clone(),
            deck: self.deck.clone(),
            field: self.field.clone(),
            grave: self.grave.clone(),
            banished: self.banished.clone(),
        }
    }

    /// Moves the first `card` of the hand to the field. Infeasible when there is none.
    pub fn summon_from_hand(self, card: Card) -> (r: Option<GameState>)
        ensures
            outcome(r) == step(self@, Transition::SummonFromHand(card)),
    {
        let mut g = self;
        if take_card(&mut g.hand, card) {
            g.field.push(card);
            Some(g)
        } else {
            None
        }
    }

    /// Moves the first `card` of the field back to the hand. Infeasible when there is none.
    pub fn return_to_hand(self, card: Card) -> (r: Option<GameState>)
        ensures
            outcome(r) == step(self@, Transition::ReturnToHand(card)),
    {
        let mut g = self;
        if take_card(&mut g.field, card) {
            g.hand.push(card);
            Some(g)
        } else {
            None
        }
    }

    /// Moves the first `card` of the deck to the field. Infeasible when there is none.
    pub fn summon_from_deck(self, card: Card) -> (r: Option<GameState>)
        ensures
            outcome(r) == step(self@, Transition::SummonFromDeck(card)),
    {
        let mut g = self;
        if take_card(&mut g.deck, card) {
            g.field.push(card);
            Some(g)
        } else {
            None
        }
    }

    /// Moves the first `card` of the field to the grave. Infeasible when there is none.
    pub fn send_to_grave(self, card: Card) -> (r: Option<GameState>)
        ensures
            outcome(r) == step(self@, Transition::SendToGrave(card)),
    {
        let mut g = self;
        if take_card(&mut g.field, card) {
            g.grave.push(card);
            Some(g)
        } else {
            None
        }
    }

    /// Moves the first `card` of the deck to the grave. Infeasible when there is none.
    pub fn mill_to_grave(self, card: Card) -> (r: Option<GameState>)
        ensures
            outcome(r) == step(self@, Transition::MillToGrave(card)),
    {
        let mut g = self;
        if take_card(&mut g.deck, card) {
            g.grave.push(card);
            Some(g)
        } else {
            None
        }
    }

    /// Moves the first `card` of the hand to the grave. Infeasible when there is none.
    pub fn discard(self, card: Card) -> (r: Option<GameState>)
        ensures
            outcome(r) == step(self@, Transition::Discard(card)),
    {
        let mut g = self;
        if take_card(&mut g.hand, card) {
            g.grave.push(card);
            Some(g)
        } else {
            None
        }
    }

    /// Activating a card from the hand sends it to the grave, as [`Self::discard`] does.
    pub fn activate(self, card: Card) -> (r: Option<GameState>)
        ensures
            outcome(r) == step(self@, Transition::Activate(card)),
    {
        self.discard(card)
    }

    /// Moves the first `card` of the hand to the field, face down. Infeasible when there is none.
    pub fn set(self, card: Card) -> (r: Option<GameState>)
        ensures
            outcome(r) == step(self@, Transition::SetCard(card)),
    {
        let mut g = self;
        if take_card(&mut g.hand, card) {
            g.field.push(card);
            Some(g)
        } else {
            None
        }
    }

    /// Puts `card` on the field from the extra deck, which is not modelled
    /// and never runs out.
    pub fn summon_from_extra_deck(self, card: Card) -> (r: Option<GameState>)
        ensures
            outcome(r) == step(self@, Transition::SummonFromExtraDeck(card)),
    {
        let mut g = self;
        g.field.push(card);
        Some(g)
    }

    /// Moves the first `card` of the grave to the field. Infeasible when there is none.
    pub fn summon_from_grave(self, card: Card) -> (r: Option<GameState>)
        ensures
            outcome(r) == step(self@, Transition::SummonFromGrave(card)),
    {
        let mut g = self;
        if take_card(&mut g.grave, card) {
            g.field.push(card);
            Some(g)
        } else {
            None
        }
    }

    /// Moves the first `card` of the grave to the banished zone. Infeasible when there is none.
    pub fn banish_from_grave(self, card: Card) -> (r: Option<GameState>)
        ensures
            outcome(r) == step(self@, Transition::BanishFromGrave(card)),
    {
        let mut g = self;
        if take_card(&mut g.grave, card) {
            g.banished.push(card);
            Some(g)
        } else {
            None
        }
    }

    /// Performs `t` on this state.
    pub fn apply(self, t: Transition) -> (r: Option<GameState>)
        ensures
            outcome(r) == step(self@, t),
    {
        match t {
            Transition::SummonFromHand(c) => self.summon_from_hand(c),
            Transition::ReturnToHand(c) => self.return_to_hand(c),
            Transition::SummonFromDeck(c) => self.summon_from_deck(c),
            Transition::SendToGrave(c) => self.send_to_grave(c),
            Transition::MillToGrave(c) => self.mill_to_grave(c),
            Transition::Discard(c) => self.discard(c),
            Transition::Activate(c) => self.activate(c),
            Transition::SetCard(c) => self.set(c),
            Transition::SummonFromExtraDeck(c) => self.summon_from_extra_deck(c),
            Transition::SummonFromGrave(c) => self.summon_from_grave(c),
            Transition::BanishFromGrave(c) => self.banish_from_grave(c),
            Transition::DiscardHand => self.discard_hand(),
            Transition::Draw(n) => self.draw(n),
        }
    }
}

} // verus!
