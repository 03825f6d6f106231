use unizombie_odds::card::Card;
use unizombie_odds::simulation::{build_deck, generate_game, simulate};

fn standard() -> Vec<(Card, usize)> {
    vec![
        (Card::UniZombie, 3),
        (Card::ShiranuiSolitaire, 3),
        (Card::Mezuki, 3),
        (Card::ZombieWorld, 3),
        (Card::Downbeat, 3),
        (Card::TenyiSpiritAdhara, 3),
        (Card::DoomkingBalerdroch, 2),
        (Card::NecroWorldBanshee, 2),
        (Card::Gozuki, 2),
        (Card::GhostBelleAndHauntedMansion, 2),
        (Card::SamuraiSkull, 2),
        (Card::GlowUpBloom, 1),
        (Card::ShiranuiSpiritmaster, 1),
        (Card::ShiranuiSpectralsword, 1),
        (Card::CardDestruction, 1),
        (Card::UpstartGoblin, 1),
    ]
}

#[test]
fn deck_is_padded_with_filler() {
    let d = build_deck(&vec![(Card::UniZombie, 3), (Card::Mezuki, 2)], 7).unwrap();
    assert_eq!(
        d,
        vec![Card::UniZombie, Card::UniZombie, Card::UniZombie, Card::Mezuki, Card::Mezuki, Card::Other, Card::Other]
    );
    assert_eq!(build_deck(&vec![], 2).unwrap(), vec![Card::Other, Card::Other]);
}

#[test]
fn deck_over_size_is_rejected() {
    assert!(build_deck(&vec![(Card::UniZombie, 3), (Card::Mezuki, 2)], 4).is_none());
    assert_eq!(build_deck(&vec![(Card::UniZombie, 3)], 3).unwrap().len(), 3);
}

#[test]
fn generated_game_deals_five_of_forty() {
    let g = generate_game(&standard(), 40).unwrap();
    assert_eq!(g.hand.len(), 5);
    assert_eq!(g.deck.len(), 35);
    assert!(g.field.is_empty() && g.grave.is_empty() && g.banished.is_empty());
    let all: Vec<Card> = g.hand.iter().chain(g.deck.iter()).cloned().collect();
    assert_eq!(all.iter().filter(|&&c| c == Card::UniZombie).count(), 3);
    assert_eq!(all.iter().filter(|&&c| c == Card::Other).count(), 7);
    assert!(generate_game(&vec![], 4).is_none());
    assert!(generate_game(&standard(), 30).is_none());
}

#[test]
fn deck_of_only_unizombie_always_reaches() {
    assert_eq!(simulate(&vec![(Card::UniZombie, 40)], 40, 300), Some(vec![300]));
}

#[test]
fn deck_of_filler_never_reaches() {
    assert_eq!(simulate(&vec![], 40, 100), Some(vec![0]));
}

#[test]
fn standard_deck_gives_partial_rate() {
    let r = simulate(&standard(), 40, 2000).unwrap();
    assert_eq!(r.len(), 1);
    assert!(r[0] > 0 && r[0] < 2000);
    assert!(simulate(&standard(), 20, 10).is_none());
}

#[test]
fn deck_with_few_fillers_always_reaches() {
    assert_eq!(simulate(&vec![(Card::UniZombie, 36)], 40, 100), Some(vec![100]));
}
