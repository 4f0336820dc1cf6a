use vstd::prelude::*;
use crate::tier::{Tier, rank};

verus! {

/// One of the two parallel content sets, chosen once at startup.
#[derive(Debug, Clone, Copy, PartialEq, Eq, Structural)]
pub enum Flavor {
    Opsec,
    Occult,
}

/// The kinds of message that the engine selects.
#[derive(Debug, Clone, Copy, PartialEq, Eq, Structural)]
pub enum MessageClass {
    EasterEgg,
    Warning,
    Completion,
    CycleHeader,
    Exit,
}

pub open spec fn class_index(c: MessageClass) -> nat {
    match c {
        MessageClass::EasterEgg => 0,
        MessageClass::Warning => 1,
        MessageClass::Completion => 2,
        MessageClass::CycleHeader => 3,
        MessageClass::Exit => 4,
    }
}

/// Where the pool of a (tier, class) pair stands in a template table.
pub open spec fn slot(tier: Tier, class: MessageClass) -> int {
    (class_index(class) * 5 + rank(tier)) as int
}

/// A table holds a pool for each (tier, class) pair. Baseline has none of its
/// own; cycle headers and exit messages exist at Cosmic only; easter eggs,
/// warnings and completion lines exist at every other tier.
pub open spec fn table_shape(t: Seq<Vec<&'static str>>) -> bool {
    &&& t.len() == 25
    &&& forall|c: MessageClass| #[trigger] t[slot(Tier::Baseline, c)]@.len() == 0
    &&& forall|tier: Tier|
        tier != Tier::Cosmic ==> #[trigger] t[slot(tier, MessageClass::CycleHeader)]@.len() == 0
            && t[slot(tier, MessageClass::Exit)]@.len() == 0
    &&& t[slot(Tier::Cosmic, MessageClass::CycleHeader)]@.len() > 0
    &&& t[slot(Tier::Cosmic, MessageClass::Exit)]@.len() > 0
    &&& forall|tier: Tier|
        tier != Tier::Baseline ==> #[trigger] t[slot(tier, MessageClass::EasterEgg)]@.len() > 0
            && t[slot(tier, MessageClass::Warning)]@.len() > 0 && t[slot(
            tier,
            MessageClass::Completion,
        )]@.len() > 0
}

/// The texts of a pool.
pub open spec fn pool_texts(pool: Seq<&'static str>) -> Seq<Seq<char>> {
    pool.map_values(|t: &'static str| t@)
}

/// The templates of a voice for a tier and a message class.
pub open spec fn voice_pool(flavor: Flavor, tier: Tier, class: MessageClass) -> Seq<&'static str> {
    match flavor {
        Flavor::Opsec => crate::creepy_messages::pool(tier, class),
        Flavor::Occult => crate::occult_messages::pool(tier, class),
    }
}

/// The texts of a voice's templates for a tier and a message class.
pub open spec fn voice_templates(flavor: Flavor, tier: Tier, class: MessageClass) -> Seq<Seq<char>> {
    pool_texts(voice_pool(flavor, tier, class))
}

/// Index of the pool of a (tier, class) pair.
pub fn slot_of(tier: Tier, class: MessageClass) -> (r: usize)
    ensures
        r as int == slot(tier, class),
        r < 25,
{
    let c: usize = match class {
        MessageClass::EasterEgg => 0,
        MessageClass::Warning => 1,
        MessageClass::Completion => 2,
        MessageClass::CycleHeader => 3,
        MessageClass::Exit => 4,
    };
    let t: usize = tier.level() as usize;
    c * 5 + t
}

/// The template table of a voice.
pub fn table_for(flavor: Flavor) -> (r: Vec<Vec<&'static str>>)
    ensures
        table_shape(r@),
        forall|t: Tier, c: MessageClass| #[trigger] r@[slot(t, c)]@ == voice_pool(flavor, t, c),
{
    match flavor {
        Flavor::Opsec => crate::creepy_messages::table(),
        Flavor::Occult => crate::occult_messages::table(),
    }
}

} // verus!
