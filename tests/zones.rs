use unizombie_odds::card::Card;
use unizombie_odds::line::{first_feasible, run_line};
use unizombie_odds::state::{GameState, Transition};

fn state(hand: Vec<Card>, deck: Vec<Card>) -> GameState {
    GameState { hand, deck, field: vec![], grave: vec![], banished: vec![] }
}

fn count_all(g: &GameState, c: Card) -> usize {
    [&g.hand, &g.deck, &g.field, &g.grave, &g.banished]
        .iter()
        .map(|z| z.iter().filter(|&&x| x == c).count())
        .sum()
}

#[test]
fn summon_unizombie_from_hand_succeeds() {
    let g = state(vec![Card::UniZombie], vec![Card::Other; 4]);
    let r = g.summon_from_hand(Card::UniZombie).expect("feasible");
    assert_eq!(r.field, vec![Card::UniZombie]);
    assert!(!r.hand.contains(&Card::UniZombie));
    assert_eq!(r.deck, vec![Card::Other; 4]);
}

#[test]
fn summon_unizombie_absent_from_hand_fails() {
    let g = state(vec![Card::Other, Card::Mezuki], vec![Card::UniZombie]);
    assert!(g.clone().summon_from_hand(Card::UniZombie).is_none());
    assert!(unizombie_odds::combo::unizombie_from_hand(g).is_none());
}

#[test]
fn solitaire_chain_ends_with_unizombie_on_field() {
    let g = state(vec![Card::ShiranuiSolitaire], vec![Card::Other, Card::UniZombie, Card::Other]);
    let r = unizombie_odds::combo::solitaire_into_unizombie(g).expect("feasible");
    assert_eq!(r.field, vec![Card::UniZombie]);
    assert_eq!(r.grave, vec![Card::ShiranuiSolitaire]);
    assert_eq!(r.deck, vec![Card::Other, Card::Other]);
    assert!(r.hand.is_empty());
}

#[test]
fn take_removes_first_copy_only() {
    let g = state(vec![Card::Other], vec![Card::Mezuki, Card::Gozuki, Card::Mezuki]);
    let r = g.mill_to_grave(Card::Mezuki).unwrap();
    assert_eq!(r.deck, vec![Card::Gozuki, Card::Mezuki]);
    assert_eq!(r.grave, vec![Card::Mezuki]);
}

#[test]
fn each_move_goes_to_its_zone() {
    let g = state(vec![Card::Mezuki, Card::Downbeat, Card::Gozuki], vec![Card::UniZombie]);
    let g = g.set(Card::Downbeat).unwrap();
    assert_eq!(g.field, vec![Card::Downbeat]);
    let g = g.return_to_hand(Card::Downbeat).unwrap();
    assert_eq!(g.hand, vec![Card::Mezuki, Card::Gozuki, Card::Downbeat]);
    let g = g.activate(Card::Downbeat).unwrap();
    assert_eq!(g.grave, vec![Card::Downbeat]);
    let g = g.discard(Card::Mezuki).unwrap();
    assert_eq!(g.grave, vec![Card::Downbeat, Card::Mezuki]);
    let g = g.summon_from_deck(Card::UniZombie).unwrap();
    assert_eq!(g.field, vec![Card::UniZombie]);
    let g = g.send_to_grave(Card::UniZombie).unwrap();
    assert_eq!(g.grave, vec![Card::Downbeat, Card::Mezuki, Card::UniZombie]);
    let g = g.banish_from_grave(Card::Mezuki).unwrap();
    assert_eq!(g.banished, vec![Card::Mezuki]);
    let g = g.summon_from_grave(Card::UniZombie).unwrap();
    assert_eq!(g.field, vec![Card::UniZombie]);
    assert_eq!(g.grave, vec![Card::Downbeat]);
    let g = g.summon_from_extra_deck(Card::Link2).unwrap();
    assert_eq!(g.field, vec![Card::UniZombie, Card::Link2]);
    assert!(g.clone().in_hand(Card::Gozuki));
    assert!(g.in_grave(Card::Downbeat));
}

#[test]
fn failed_transitions_are_infeasible() {
    let g = state(vec![Card::Other], vec![]);
    assert!(g.clone().summon_from_deck(Card::UniZombie).is_none());
    assert!(g.clone().mill_to_grave(Card::Mezuki).is_none());
    assert!(g.clone().send_to_grave(Card::Link2).is_none());
    assert!(g.clone().return_to_hand(Card::Downbeat).is_none());
    assert!(g.clone().summon_from_grave(Card::UniZombie).is_none());
    assert!(g.clone().banish_from_grave(Card::Mezuki).is_none());
    assert!(g.clone().discard(Card::Mezuki).is_none());
    assert!(g.clone().activate(Card::Downbeat).is_none());
    assert!(g.clone().set(Card::Downbeat).is_none());
    assert!(g.clone().draw(1).is_none());
}

#[test]
fn failure_leaves_kept_state_untouched() {
    let g = state(vec![Card::Mezuki, Card::Other], vec![Card::Gozuki]);
    let kept = g.fork();
    assert!(g.summon_from_hand(Card::UniZombie).is_none());
    assert_eq!(kept.hand, vec![Card::Mezuki, Card::Other]);
    assert_eq!(kept.deck, vec![Card::Gozuki]);
    assert!(kept.field.is_empty() && kept.grave.is_empty() && kept.banished.is_empty());
}

#[test]
fn draw_takes_from_front_of_deck() {
    let g = state(vec![Card::Other], vec![Card::Mezuki, Card::Gozuki, Card::UniZombie]);
    let r = g.clone().draw(2).unwrap();
    assert_eq!(r.hand, vec![Card::Other, Card::Mezuki, Card::Gozuki]);
    assert_eq!(r.deck, vec![Card::UniZombie]);
    let all = g.clone().draw(3).unwrap();
    assert!(all.deck.is_empty());
    assert!(g.draw(4).is_none());
}

#[test]
fn discard_hand_moves_whole_hand_last_first() {
    let g = state(vec![Card::Mezuki, Card::Gozuki, Card::Downbeat], vec![Card::Other]);
    let r = g.discard_hand().unwrap();
    assert!(r.hand.is_empty());
    assert_eq!(r.grave, vec![Card::Downbeat, Card::Gozuki, Card::Mezuki]);
    let empty = state(vec![], vec![]).discard_hand().unwrap();
    assert!(empty.grave.is_empty());
}

#[test]
fn deal_takes_first_five() {
    let deck: Vec<Card> = vec![
        Card::UniZombie, Card::Mezuki, Card::Gozuki, Card::Other, Card::Downbeat,
        Card::ZombieWorld, Card::Other,
    ];
    let g = GameState::from(deck);
    assert_eq!(g.hand, vec![Card::UniZombie, Card::Mezuki, Card::Gozuki, Card::Other, Card::Downbeat]);
    assert_eq!(g.deck, vec![Card::ZombieWorld, Card::Other]);
    assert!(g.field.is_empty() && g.grave.is_empty() && g.banished.is_empty());
}

#[test]
fn shuffle_keeps_deck_cards() {
    let deck: Vec<Card> = (0..30).map(|i| if i % 3 == 0 { Card::Mezuki } else { Card::Other }).collect();
    let g = state(vec![Card::UniZombie], deck.clone());
    let r = g.shuffle_deck().unwrap();
    assert_eq!(r.deck.len(), 30);
    assert_eq!(r.deck.iter().filter(|&&c| c == Card::Mezuki).count(), 10);
    assert_eq!(r.hand, vec![Card::UniZombie]);
}

#[test]
fn transitions_conserve_cards() {
    let g = state(
        vec![Card::ShiranuiSolitaire, Card::Mezuki, Card::Downbeat],
        vec![Card::UniZombie, Card::Mezuki, Card::Other],
    );
    let cards = [Card::ShiranuiSolitaire, Card::Mezuki, Card::Downbeat, Card::UniZombie, Card::Other];
    let before: Vec<usize> = cards.iter().map(|&c| count_all(&g, c)).collect();
    let r = g
        .summon_from_hand(Card::ShiranuiSolitaire)
        .and_then(|g| g.send_to_grave(Card::ShiranuiSolitaire))
        .and_then(|g| g.mill_to_grave(Card::Mezuki))
        .and_then(|g| g.discard_hand())
        .and_then(|g| g.draw(2))
        .and_then(|g| g.banish_from_grave(Card::Mezuki))
        .unwrap();
    let after: Vec<usize> = cards.iter().map(|&c| count_all(&r, c)).collect();
    assert_eq!(before, after);
}

#[test]
fn single_move_changes_counts_by_one() {
    let g = state(vec![Card::Mezuki, Card::Mezuki], vec![Card::Mezuki]);
    let r = g.clone().discard(Card::Mezuki).unwrap();
    assert_eq!(r.hand.len() + 1, g.hand.len());
    assert_eq!(r.grave.len(), g.grave.len() + 1);
    assert_eq!(r.deck, g.deck);
    assert_eq!(r.field, g.field);
    assert_eq!(r.hand.len() + r.grave.len(), g.hand.len() + g.grave.len());
}

#[test]
fn apply_matches_named_operation() {
    let g = state(vec![Card::Mezuki], vec![Card::UniZombie]);
    assert_eq!(g.clone().apply(Transition::Discard(Card::Mezuki)), g.clone().discard(Card::Mezuki));
    assert_eq!(g.clone().apply(Transition::Draw(1)), g.clone().draw(1));
    assert_eq!(g.clone().apply(Transition::DiscardHand), g.clone().discard_hand());
    assert!(g.apply(Transition::SummonFromGrave(Card::Mezuki)).is_none());
}

#[test]
fn fallback_prefers_first_feasible() {
    let g = state(vec![Card::SamuraiSkull, Card::Gozuki], vec![]);
    let alts = vec![Transition::SummonFromHand(Card::SamuraiSkull), Transition::SummonFromHand(Card::Gozuki)];
    let r = first_feasible(&g, &alts);
    assert_eq!(r, g.clone().summon_from_hand(Card::SamuraiSkull));
    let alts = vec![Transition::SummonFromHand(Card::Mezuki), Transition::SummonFromHand(Card::Gozuki)];
    let r = first_feasible(&g, &alts).unwrap();
    assert_eq!(r.field, vec![Card::Gozuki]);
    let none = vec![Transition::SummonFromHand(Card::Mezuki)];
    assert!(first_feasible(&g, &none).is_none());
    assert!(first_feasible(&g, &vec![]).is_none());
}

#[test]
fn line_stops_at_first_failed_step() {
    let g = state(vec![Card::ShiranuiSolitaire], vec![Card::Other]);
    let steps = vec![
        vec![Transition::SummonFromHand(Card::ShiranuiSolitaire)],
        vec![Transition::SummonFromDeck(Card::UniZombie)],
        vec![Transition::SendToGrave(Card::ShiranuiSolitaire)],
        vec![Transition::SummonFromExtraDeck(Card::Link2)],
    ];
    let (r, tried) = run_line(g.clone(), &steps);
    assert!(r.is_none());
    assert_eq!(tried, 2);
    let (r, tried) = run_line(g, &vec![vec![Transition::SummonFromHand(Card::ShiranuiSolitaire)]]);
    assert_eq!(tried, 1);
    assert_eq!(r.unwrap().field, vec![Card::ShiranuiSolitaire]);
}
