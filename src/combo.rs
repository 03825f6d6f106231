use vstd::prelude::*;

use crate::card::Card;
use crate::line::{line, plan, run_line};
use crate::state::{outcome, shuffled, step, GameState, Transition, Zones};

verus! {

/// `x` if it succeeded, else `y`.
pub open spec fn either(x: Option<Zones>, y: Option<Zones>) -> Option<Zones> {
    if x is Some {
        x
    } else {
        y
    }
}

/// The line `steps` run from `o`, when `o` succeeded.
pub open spec fn then_line(o: Option<Zones>, steps: Seq<Seq<Transition>>) -> Option<Zones> {
    match o {
        Some(z) => line(z, steps),
        None => None,
    }
}

/// Steps of the Shiranui Solitaire line.
pub open spec fn solitaire_steps() -> Seq<Seq<Transition>> {
    seq![
        seq![Transition::SummonFromHand(Card::ShiranuiSolitaire)],
        seq![Transition::SendToGrave(Card::ShiranuiSolitaire)],
        seq![Transition::SummonFromDeck(Card::UniZombie)],
    ]
}

/// Steps of the Jack o' Bolan line.
pub open spec fn jackobolan_steps() -> Seq<Seq<Transition>> {
    seq![
        seq![Transition::SummonFromHand(Card::JackOBolan)],
        seq![Transition::Discard(Card::Mezuki)],
        seq![
            Transition::SummonFromHand(Card::SamuraiSkull),
            Transition::SummonFromHand(Card::Gozuki),
        ],
        seq![Transition::MillToGrave(Card::UniZombie)],
        seq![Transition::BanishFromGrave(Card::Mezuki)],
        seq![Transition::SummonFromGrave(Card::UniZombie)],
    ]
}

/// Steps of the Jack o' Bolan and tuner line.
pub open spec fn jackobolan_and_tuner_steps() -> Seq<Seq<Transition>> {
    seq![
        seq![
            Transition::SummonFromHand(Card::GlowUpBloom),
            Transition::SummonFromHand(Card::ShiranuiSpectralsword),
            Transition::SummonFromHand(Card::GhostBelleAndHauntedMansion),
        ],
        seq![Transition::Discard(Card::Mezuki)],
        seq![Transition::SummonFromHand(Card::JackOBolan)],
        seq![Transition::SendToGrave(Card::JackOBolan)],
        seq![
            Transition::SendToGrave(Card::GlowUpBloom),
            Transition::SendToGrave(Card::ShiranuiSpectralsword),
            Transition::SendToGrave(Card::GhostBelleAndHauntedMansion),
        ],
        seq![Transition::SummonFromExtraDeck(Card::Link2)],
        seq![Transition::BanishFromGrave(Card::Mezuki)],
        seq![Transition::SummonFromGrave(Card::UniZombie)],
    ]
}

/// Steps of the Downbeat line.
pub open spec fn downbeat_steps() -> Seq<Seq<Transition>> {
    seq![
        seq![
            Transition::SummonFromHand(Card::SamuraiSkull),
            Transition::SummonFromHand(Card::ZombieMaster),
            Transition::SummonFromHand(Card::NecroWorldBanshee),
            Transition::SummonFromHand(Card::GoblinZombie),
        ],
        seq![Transition::Activate(Card::Downbeat)],
        seq![Transition::SummonFromDeck(Card::UniZombie)],
        seq![
            Transition::SendToGrave(Card::SamuraiSkull),
            Transition::SendToGrave(Card::ZombieMaster),
            Transition::SendToGrave(Card::NecroWorldBanshee),
            Transition::SendToGrave(Card::GoblinZombie),
        ],
    ]
}

/// Opening steps of the Jack o' Bolan and Downbeat line: Jack o' Bolan
/// is summoned by discarding any card that the rest of the line does not need.
pub open spec fn jackobolan_and_downbeat_opening() -> Seq<Seq<Transition>> {
    seq![
        seq![Transition::SummonFromHand(Card::JackOBolan)],
        seq![
            Transition::Discard(Card::DoomkingBalerdroch),
            Transition::Discard(Card::GlowUpBloom),
            Transition::Discard(Card::ShiranuiSpectralsword),
            Transition::Discard(Card::ShiranuiSpiritmaster),
            Transition::Discard(Card::GhostBelleAndHauntedMansion),
            Transition::Discard(Card::Mezuki),
            Transition::Discard(Card::Gozuki),
        ],
    ]
}

/// Closing steps of the Jack o' Bolan and Downbeat line, once a Mezuki
/// or Gozuki is on the field and a Mezuki can be in the grave.
pub open spec fn jackobolan_and_downbeat_finish() -> Seq<Seq<Transition>> {
    seq![
        seq![Transition::Activate(Card::Downbeat)],
        seq![Transition::SendToGrave(Card::Mezuki), Transition::SendToGrave(Card::Gozuki)],
        seq![Transition::SummonFromDeck(Card::GhostBelleAndHauntedMansion)],
        seq![Transition::SendToGrave(Card::JackOBolan)],
        seq![Transition::SendToGrave(Card::GhostBelleAndHauntedMansion)],
        seq![Transition::SummonFromExtraDeck(Card::Link2)],
        seq![Transition::SummonFromDeck(Card::UniZombie)],
        seq![Transition::SendToGrave(Card::Link2)],
        seq![Transition::SendToGrave(Card::UniZombie)],
        seq![Transition::SummonFromExtraDeck(Card::Link2)],
        seq![Transition::BanishFromGrave(Card::Mezuki)],
        seq![Transition::SummonFromGrave(Card::UniZombie)],
    ]
}

/// Closing steps of the Tenyi Spirit Adhara line, once the normal summon
/// is done.
pub open spec fn adhara_finish() -> Seq<Seq<Transition>> {
    seq![
        seq![Transition::SendToGrave(Card::TenyiSpiritAdhara)],
        seq![
            Transition::SendToGrave(Card::Mezuki),
            Transition::SendToGrave(Card::Gozuki),
            Transition::SendToGrave(Card::SamuraiSkull),
        ],
        seq![Transition::SummonFromExtraDeck(Card::Link2)],
        seq![Transition::SummonFromDeck(Card::UniZombie)],
        seq![Transition::SendToGrave(Card::Link2)],
        seq![Transition::SendToGrave(Card::UniZombie)],
        seq![Transition::SummonFromExtraDeck(Card::Link2)],
        seq![Transition::BanishFromGrave(Card::Mezuki)],
        seq![Transition::SummonFromGrave(Card::UniZombie)],
    ]
}

/// The normal summon of the Jack o' Bolan and Downbeat line: Mezuki from the
/// hand; else Gozuki, which mills a Mezuki, or goes on without one when a
/// Mezuki is already in the grave.
pub open spec fn mezuki_or_gozuki(z: Zones) -> Option<Zones> {
    either(
        step(z, Transition::SummonFromHand(Card::Mezuki)),
        match step(z, Transition::SummonFromHand(Card::Gozuki)) {
            Some(y) => either(
                step(y, Transition::MillToGrave(Card::Mezuki)),
                if y.grave.contains(Card::Mezuki) {
                    Some(y)
                } else {
                    None
                },
            ),
            None => None,
        },
    )
}

/// The normal summon of the Tenyi Spirit Adhara line: Mezuki from the hand;
/// else Gozuki, then Samurai Skull, each of which must mill a Mezuki.
pub open spec fn adhara_normal_summon(z: Zones) -> Option<Zones> {
    either(
        step(z, Transition::SummonFromHand(Card::Mezuki)),
        either(
            then_step(step(z, Transition::SummonFromHand(Card::Gozuki)), Transition::MillToGrave(Card::Mezuki)),
            then_step(
                step(z, Transition::SummonFromHand(Card::SamuraiSkull)),
                Transition::MillToGrave(Card::Mezuki),
            ),
        ),
    )
}

/// `t` performed on `o`, when `o` succeeded.
pub open spec fn then_step(o: Option<Zones>, t: Transition) -> Option<Zones> {
    match o {
        Some(z) => step(z, t),
        None => None,
    }
}

/// The outcome of the Jack o' Bolan and Downbeat line.
pub open spec fn jackobolan_and_downbeat_line(z: Zones) -> Option<Zones> {
    match line(z, jackobolan_and_downbeat_opening()) {
        Some(y) => then_line(mezuki_or_gozuki(y), jackobolan_and_downbeat_finish()),
        None => None,
    }
}

/// The outcome of the Tenyi Spirit Adhara line.
pub open spec fn adhara_line(z: Zones) -> Option<Zones> {
    match step(z, Transition::SummonFromHand(Card::TenyiSpiritAdhara)) {
        Some(y) => then_line(adhara_normal_summon(y), adhara_finish()),
        None => None,
    }
}

/// Summons Shiranui Solitaire from the hand and tributes it to summon Uni-Zombie
/// from the deck. Fails, for instance, when no Uni-Zombie is left in the deck.
pub fn solitaire_into_unizombie(game: GameState) -> (r: Option<GameState>)
    ensures
        outcome(r) == line(game@, solitaire_steps()),
{
    let steps = vec![
        vec![Transition::SummonFromHand(Card::ShiranuiSolitaire)],
        vec![Transition::SendToGrave(Card::ShiranuiSolitaire)],
        vec![Transition::SummonFromDeck(Card::UniZombie)],
    ];
    assert(plan(steps@) =~~= solitaire_steps());
    run_line(game, &steps).0
}

/// Summons Uni-Zombie straight from the hand.
pub fn unizombie_from_hand(game: GameState) -> (r: Option<GameState>)
    ensures
        outcome(r) == step(game@, Transition::SummonFromHand(Card::UniZombie)),
{
    game.summon_from_hand(Card::UniZombie)
}

/// Summons Jack o' Bolan by discarding Mezuki, normal summons Samurai Skull
/// or Gozuki to mill Uni-Zombie, then banishes Mezuki to revive it.
pub fn jackobolan_into_unizombie(game: GameState) -> (r: Option<GameState>)
    ensures
        outcome(r) == line(game@, jackobolan_steps()),
{
    let steps = vec![
        vec![Transition::SummonFromHand(Card::JackOBolan)],
        vec![Transition::Discard(Card::Mezuki)],
        vec![
            Transition::SummonFromHand(Card::SamuraiSkull),
            Transition::SummonFromHand(Card::Gozuki),
        ],
        vec![Transition::MillToGrave(Card::UniZombie)],
        vec![Transition::BanishFromGrave(Card::Mezuki)],
        vec![Transition::SummonFromGrave(Card::UniZombie)],
    ];
    assert(plan(steps@) =~~= jackobolan_steps());
    run_line(game, &steps).0
}

/// Uses Jack o' Bolan and a normal summoned tuner to make a link monster,
/// then banishes the discarded Mezuki to revive Uni-Zombie from the grave.
pub fn jackobolan_and_tuner_into_unizombie(game: GameState) -> (r: Option<GameState>)
    ensures
        outcome(r) == line(game@, jackobolan_and_tuner_steps()),
{
    let steps = vec![
        vec![
            Transition::SummonFromHand(Card::GlowUpBloom),
            Transition::SummonFromHand(Card::ShiranuiSpectralsword),
            Transition::SummonFromHand(Card::GhostBelleAndHauntedMansion),
        ],
        vec![Transition::Discard(Card::Mezuki)],
        vec![Transition::SummonFromHand(Card::JackOBolan)],
        vec![Transition::SendToGrave(Card::JackOBolan)],
        vec![
            Transition::SendToGrave(Card::GlowUpBloom),
            Transition::SendToGrave(Card::ShiranuiSpectralsword),
            Transition::SendToGrave(Card::GhostBelleAndHauntedMansion),
        ],
        vec![Transition::SummonFromExtraDeck(Card::Link2)],
        vec![Transition::BanishFromGrave(Card::Mezuki)],
        vec![Transition::SummonFromGrave(Card::UniZombie)],
    ];
    assert(plan(steps@) =~~= jackobolan_and_tuner_steps());
    run_line(game, &steps).0
}

/// Uses Downbeat on a level 4 DARK zombie to summon Uni-Zombie from the deck.
pub fn downbeat_into_unizombie(game: GameState) -> (r: Option<GameState>)
    ensures
        outcome(r) == line(game@, downbeat_steps()),
{
    let steps = vec![
        vec![
            Transition::SummonFromHand(Card::SamuraiSkull),
            Transition::SummonFromHand(Card::ZombieMaster),
            Transition::SummonFromHand(Card::NecroWorldBanshee),
            Transition::SummonFromHand(Card::GoblinZombie),
        ],
        vec![Transition::Activate(Card::Downbeat)],
        vec![Transition::SummonFromDeck(Card::UniZombie)],
        vec![
            Transition::SendToGrave(Card::SamuraiSkull),
            Transition::SendToGrave(Card::ZombieMaster),
            Transition::SendToGrave(Card::NecroWorldBanshee),
            Transition::SendToGrave(Card::GoblinZombie),
        ],
    ];
    assert(plan(steps@) =~~= downbeat_steps());
    run_line(game, &steps).0
}

fn mezuki_or_gozuki_exec(game: GameState) -> (r: Option<GameState>)
    ensures
        outcome(r) == mezuki_or_gozuki(game@),
{
    let first = game.fork().summon_from_hand(Card::Mezuki);
    if first.is_some() {
        return first;
    }
    match game.summon_from_hand(Card::Gozuki) {
        Some(g) => {
            let milled = g.fork().mill_to_grave(Card::Mezuki);
            if milled.is_some() {
                milled
            } else if g.in_grave(Card::Mezuki) {
                Some(g)
            } else {
                None
            }
        },
        None => None,
    }
}

/// Uses Jack o' Bolan and Downbeat on a level 4 EARTH zombie to bring out
/// Ghost Belle, makes a link monster that takes Uni-Zombie from the deck,
/// sends it to the grave and revives it with a Mezuki from the grave.
pub fn jackobolan_and_downbeat_into_unizombie(game: GameState) -> (r: Option<GameState>)
    ensures
        outcome(r) == jackobolan_and_downbeat_line(game@),
{
    let opening = vec![
        vec![Transition::SummonFromHand(Card::JackOBolan)],
        vec![
            Transition::Discard(Card::DoomkingBalerdroch),
            Transition::Discard(Card::GlowUpBloom),
            Transition::Discard(Card::ShiranuiSpectralsword),
            Transition::Discard(Card::ShiranuiSpiritmaster),
            Transition::Discard(Card::GhostBelleAndHauntedMansion),
            Transition::Discard(Card::Mezuki),
            Transition::Discard(Card::Gozuki),
        ],
    ];
    assert(plan(opening@) =~~= jackobolan_and_downbeat_opening());
    let finish = vec![
        vec![Transition::Activate(Card::Downbeat)],
        vec![Transition::SendToGrave(Card::Mezuki), Transition::SendToGrave(Card::Gozuki)],
        vec![Transition::SummonFromDeck(Card::GhostBelleAndHauntedMansion)],
        vec![Transition::SendToGrave(Card::JackOBolan)],
        vec![Transition::SendToGrave(Card::GhostBelleAndHauntedMansion)],
        vec![Transition::SummonFromExtraDeck(Card::Link2)],
        vec![Transition::SummonFromDeck(Card::UniZombie)],
        vec![Transition::SendToGrave(Card::Link2)],
        vec![Transition::SendToGrave(Card::UniZombie)],
        vec![Transition::SummonFromExtraDeck(Card::Link2)],
        vec![Transition::BanishFromGrave(Card::Mezuki)],
        vec![Transition::SummonFromGrave(Card::UniZombie)],
    ];
    assert(plan(finish@) =~~= jackobolan_and_downbeat_finish());
    match run_line(game, &opening).0 {
        Some(g) => match mezuki_or_gozuki_exec(g) {
            Some(h) => run_line(h, &finish).0,
            None => None,
        },
        None => None,
    }
}

fn adhara_normal_summon_exec(game: GameState) -> (r: Option<GameState>)
    ensures
        outcome(r) == adhara_normal_summon(game@),
{
    let first = game.fork().summon_from_hand(Card::Mezuki);
    if first.is_some() {
        return first;
    }
    let second = match game.fork().summon_from_hand(Card::Gozuki) {
        Some(g) => g.mill_to_grave(Card::Mezuki),
        None => None,
    };
    if second.is_some() {
        return second;
    }
    match game.summon_from_hand(Card::SamuraiSkull) {
        Some(g) => g.mill_to_grave(Card::Mezuki),
        None => None,
    }
}

/// Uses Tenyi Spirit Adhara and a normal summon to make a link monster that
/// takes Uni-Zombie from the deck, then revives it from the grave.
pub fn adhara_into_unizombie(game: GameState) -> (r: Option<GameState>)
    ensures
        outcome(r) == adhara_line(game@),
{
    let finish = vec![
        vec![Transition::SendToGrave(Card::TenyiSpiritAdhara)],
        vec![
            Transition::SendToGrave(Card::Mezuki),
            Transition::SendToGrave(Card::Gozuki),
            Transition::SendToGrave(Card::SamuraiSkull),
        ],
        vec![Transition::SummonFromExtraDeck(Card::Link2)],
        vec![Transition::SummonFromDeck(Card::UniZombie)],
        vec![Transition::SendToGrave(Card::Link2)],
        vec![Transition::SendToGrave(Card::UniZombie)],
        vec![Transition::SummonFromExtraDeck(Card::Link2)],
        vec![Transition::BanishFromGrave(Card::Mezuki)],
        vec![Transition::SummonFromGrave(Card::UniZombie)],
    ];
    assert(plan(finish@) =~~= adhara_finish());
    match game.summon_from_hand(Card::TenyiSpiritAdhara) {
        Some(g) => match adhara_normal_summon_exec(g) {
            Some(h) => run_line(h, &finish).0,
            None => None,
        },
        None => None,
    }
}

/// The first of the other lines that succeeds from `z`, in their fixed order.
pub open spec fn any_line(z: Zones) -> Option<Zones> {
    either(
        step(z, Transition::SummonFromHand(Card::UniZombie)),
        either(
            line(z, solitaire_steps()),
            either(
                line(z, jackobolan_steps()),
                either(
                    line(z, downbeat_steps()),
                    either(
                        jackobolan_and_downbeat_line(z),
                        either(line(z, jackobolan_and_tuner_steps()), adhara_line(z)),
                    ),
                ),
            ),
        ),
    )
}

/// Card Destruction up to the shuffle: Downbeat is set first when it is in
/// the hand, then Card Destruction is activated.
pub open spec fn card_destruction_opening(z: Zones) -> Option<Zones> {
    then_step(either(step(z, Transition::SetCard(Card::Downbeat)), Some(z)), Transition::Activate(Card::CardDestruction))
}

/// Card Destruction after the shuffle: the hand is discarded and as many
/// cards are drawn, a set Downbeat goes back to the hand, and the other lines
/// are tried in order.
pub open spec fn card_destruction_refresh(z: Zones) -> Option<Zones> {
    match then_step(step(z, Transition::DiscardHand), Transition::Draw(z.hand.len() as usize)) {
        Some(y) => any_line(either(step(y, Transition::ReturnToHand(Card::Downbeat)), Some(y))->0),
        None => None,
    }
}

/// What the Card Destruction line may give from `z`: nothing when it cannot
/// start, else the refresh of some shuffle of the deck.
pub open spec fn card_destruction_outcome(z: Zones, o: Option<Zones>) -> bool {
    match card_destruction_opening(z) {
        Some(y) => exists|s: Zones| shuffled(y, s) && o == card_destruction_refresh(s),
        None => o is None,
    }
}

/// The rest of the Card Destruction line once the deck is shuffled: discards
/// the hand, draws as many cards, returns a set Downbeat to the hand and tries
/// the other lines in order.
pub fn card_destruction_after_shuffle(game: GameState) -> (r: Option<GameState>)
    ensures
        outcome(r) == card_destruction_refresh(game@),
{
    let cards = game.hand.len();
    let drawn = match game.discard_hand() {
        Some(g) => g.draw(cards),
        None => None,
    };
    match drawn {
        Some(g) => {
            let back = match g.fork().return_to_hand(Card::Downbeat) {
                Some(h) => h,
                None => g,
            };
            let r = unizombie_from_hand(back.fork());
            if r.is_some() {
                return r;
            }
            let r = solitaire_into_unizombie(back.fork());
            if r.is_some() {
                return r;
            }
            let r = jackobolan_into_unizombie(back.fork());
            if r.is_some() {
                return r;
            }
            let r = downbeat_into_unizombie(back.fork());
            if r.is_some() {
                return r;
            }
            let r = jackobolan_and_downbeat_into_unizombie(back.fork());
            if r.is_some() {
                return r;
            }
            let r = jackobolan_and_tuner_into_unizombie(back.fork());
            if r.is_some() {
                return r;
            }
            adhara_into_unizombie(back)
        },
        None => None,
    }
}

/// Uses Card Destruction to swap the whole hand for fresh cards, then tries
/// the other lines on the new hand.
pub fn card_destruction_into_unizombie(game: GameState) -> (r: Option<GameState>)
    ensures
        card_destruction_outcome(game@, outcome(r)),
{
    let start = match game.fork().set(Card::Downbeat) {
        Some(g) => g,
        None => game,
    };
    match start.activate(Card::CardDestruction) {
        Some(g) => match g.shuffle_deck() {
            Some(h) => {
                let ghost s = h@;
                let r = card_destruction_after_shuffle(h);
                assert(shuffled(card_destruction_opening(game@)->0, s) && outcome(r) == card_destruction_refresh(s));
                r
            },
            None => None,
        },
        None => None,
    }
}

/// `acc` with the outcome `o` added when it succeeded.
pub open spec fn with_outcome(acc: Seq<Zones>, o: Option<Zones>) -> Seq<Zones> {
    match o {
        Some(z) => acc.push(z),
        None => acc,
    }
}

/// What each line other than Card Destruction leaves when it succeeds from
/// `z`, in the order the lines are tried.
pub open spec fn fixed_line_results(z: Zones) -> Seq<Zones> {
    let r = with_outcome(seq![], step(z, Transition::SummonFromHand(Card::UniZombie)));
    let r = with_outcome(r, line(z, solitaire_steps()));
    let r = with_outcome(r, line(z, jackobolan_steps()));
    let r = with_outcome(r, line(z, downbeat_steps()));
    let r = with_outcome(r, jackobolan_and_downbeat_line(z));
    let r = with_outcome(r, line(z, jackobolan_and_tuner_steps()));
    with_outcome(r, adhara_line(z))
}

/// The zones of each state in `v`.
pub open spec fn views(v: Seq<GameState>) -> Seq<Zones> {
    v.map_values(|g: GameState| g@)
}

fn push_outcome(acc: &mut Vec<GameState>, o: Option<GameState>)
    ensures
        views(final(acc)@) == with_outcome(views(old(acc)@), outcome(o)),
{
    match o {
        Some(g) => {
            acc.push(g);
            assert(views(final(acc)@) =~= views(old(acc)@).push(g@));
        },
        None => {},
    }
}

/// Tries every line for summoning Uni-Zombie, each on its own copy of `game`,
/// and returns what each successful line leaves, in the order tried.
pub fn can_summon_unizombie(game: GameState) -> (r: Vec<GameState>)
    ensures
        exists|o: Option<Zones>|
            card_destruction_outcome(game@, o) && views(r@) == with_outcome(fixed_line_results(game@), o),
{
    let mut methods: Vec<GameState> = Vec::new();
    assert(views(methods@) =~= Seq::<Zones>::empty());
    push_outcome(&mut methods, unizombie_from_hand(game.fork()));
    push_outcome(&mut methods, solitaire_into_unizombie(game.fork()));
    push_outcome(&mut methods, jackobolan_into_unizombie(game.fork()));
    push_outcome(&mut methods, downbeat_into_unizombie(game.fork()));
    push_outcome(&mut methods, jackobolan_and_downbeat_into_unizombie(game.fork()));
    push_outcome(&mut methods, jackobolan_and_tuner_into_unizombie(game.fork()));
    push_outcome(&mut methods, adhara_into_unizombie(game.fork()));
    let cd = card_destruction_into_unizombie(game.fork());
    push_outcome(&mut methods, cd);
    assert(card_destruction_outcome(game@, outcome(cd)));
    methods
}

/// The objectives whose chance the simulation estimates.
#[derive(Debug, Clone, Copy, PartialEq, Eq, Hash, Structural)]
pub enum PlayOptions {
    SummonUniZombie,
}

impl PlayOptions {
    /// Every objective, in the fixed order used for reporting.
    pub fn all() -> (r: Vec<PlayOptions>)
        ensures
            r@ == seq![PlayOptions::SummonUniZombie],
    {
        let r = vec![PlayOptions::SummonUniZombie];
        assert(r@ =~= seq![PlayOptions::SummonUniZombie]);
        r
    }
}

/// The state that the lines start from: with Upstart Goblin in hand, it is
/// activated and one card drawn first, and the trial fails if that fails.
pub open spec fn prepared(z: Zones) -> Option<Zones> {
    if z.hand.contains(Card::UpstartGoblin) {
        then_step(step(z, Transition::Activate(Card::UpstartGoblin)), Transition::Draw(1))
    } else {
        Some(z)
    }
}

/// Whether some line summons Uni-Zombie, given what Card Destruction gave.
pub open spec fn reaches_unizombie(z: Zones, card_destruction: Option<Zones>) -> bool {
    with_outcome(fixed_line_results(z), card_destruction).len() > 0
}

/// The objectives of a trial that starts from `z`, given what Card
/// Destruction gave: none when the preparation fails.
pub open spec fn objectives(z: Zones, card_destruction: Option<Zones>) -> Seq<PlayOptions> {
    match prepared(z) {
        Some(y) => if reaches_unizombie(y, card_destruction) {
            seq![PlayOptions::SummonUniZombie]
        } else {
            seq![]
        },
        None => seq![],
    }
}

/// A trial whose opening hand holds Uni-Zombie and no Upstart Goblin always
/// reaches the Uni-Zombie objective, whatever Card Destruction gives.
pub proof fn lemma_unizombie_in_hand_reached(z: Zones, o: Option<Zones>)
    requires
        z.hand.contains(Card::UniZombie),
        !z.hand.contains(Card::UpstartGoblin),
    ensures
        objectives(z, o) == seq![PlayOptions::SummonUniZombie],
{
}

/// The objectives reached from the dealt `game`.
pub fn analyse(game: GameState) -> (r: Vec<PlayOptions>)
    ensures
        exists|o: Option<Zones>|
            (prepared(game@) matches Some(y) ==> card_destruction_outcome(y, o)) && r@ == objectives(game@, o),
{
    let mut plays: Vec<PlayOptions> = Vec::new();
    let start = if game.in_hand(Card::UpstartGoblin) {
        match game.activate(Card::UpstartGoblin) {
            Some(g) => g.draw(1),
            None => None,
        }
    } else {
        Some(game)
    };
    match start {
        Some(g) => {
            let ghost y = g@;
            let methods = can_summon_unizombie(g);
            let ghost o = choose|o: Option<Zones>|
                card_destruction_outcome(y, o) && views(methods@) == with_outcome(fixed_line_results(y), o);
            if methods.len() > 0 {
                plays.push(PlayOptions::SummonUniZombie);
            }
            assert(views(methods@).len() == methods@.len());
            assert(plays@ =~= if reaches_unizombie(y, o) {
                seq![PlayOptions::SummonUniZombie]
            } else {
                Seq::<PlayOptions>::empty()
            });
            assert(prepared(game@) == Some(y));
            assert(plays@ == objectives(game@, o));
        },
        None => {
            assert(plays@ =~= objectives(game@, None));
        },
    }
    plays
}

} // verus!
