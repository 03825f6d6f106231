use vstd::prelude::*;

verus! {

/// The card identities that the combo lines know about. `Other` stands for
/// every deck slot that no combo line cares about.
#[derive(Debug, Clone, Copy, PartialEq, Eq, Structural)]
pub enum Card {
    UniZombie,
    ShiranuiSolitaire,
    Mezuki,
    Gozuki,
    NecroWorldBanshee,
    GlowUpBloom,
    ZombieWorld,
    JackOBolan,
    SamuraiSkull,
    ZombieMaster,
    GoblinZombie,
    DoomkingBalerdroch,
    GhostBelleAndHauntedMansion,
    ShiranuiSpectralsword,
    ShiranuiSpiritmaster,
    TenyiSpiritAdhara,
    Other,
    Downbeat,
    CardDestruction,
    UpstartGoblin,
    Link2,
}

} // verus!
