use vstd::prelude::*;

verus! {

/// A world event an enemy can appear during.
///
/// Categorical: values are compared only for equality, never ordered.
#[derive(Debug, Clone, Copy, PartialEq, Eq, Structural)]
pub enum Event {
    Goblin,
    Pirate,
    Rain,
    Slime,
    Wind,
    Martian,
    Eclipse,
    OldOnes,
    Blood,
    Lunar,
    Solar,
    Stardust,
    Vortex,
    Nebula,
    Legion,
    Frost,
    Pumpkin,
}

impl Event {
    /// The display text of each event tag.
    pub open spec fn label_spec(self) -> Seq<char> {
        match self {
            Event::Goblin => "Goblin Invasion"@,
            Event::Pirate => "Pirate Invasion"@,
            Event::Rain => "Rain"@,
            Event::Slime => "Slime Rain"@,
            Event::Wind => "Windy Day"@,
            Event::Martian => "Martian Invasion"@,
            Event::Eclipse => "Solar Eclipse"@,
            Event::OldOnes => "Old One's Army"@,
            Event::Blood => "Blood Moon"@,
            Event::Lunar => "Lunar Events"@,
            Event::Solar => "Solar Pillar"@,
            Event::Stardust => "Stardust Pillar"@,
            Event::Vortex => "Vortex Pillar"@,
            Event::Nebula => "Nebula Pillar"@,
            Event::Legion => "Frost Legion"@,
            Event::Frost => "Frost Moon"@,
            Event::Pumpkin => "Pumpkin Moon"@,
        }
    }

    /// Display text for this event tag.
    pub fn label(&self) -> (r: &'static str)
        ensures
            r@ == self.label_spec(),
    {
        match self {
            Event::Goblin => "Goblin Invasion",
            Event::Pirate => "Pirate Invasion",
            Event::Rain => "Rain",
            Event::Slime => "Slime Rain",
            Event::Wind => "Windy Day",
            Event::Martian => "Martian Invasion",
            Event::Eclipse => "Solar Eclipse",
            Event::OldOnes => "Old One's Army",
            Event::Blood => "Blood Moon",
            Event::Lunar => "Lunar Events",
            Event::Solar => "Solar Pillar",
            Event::Stardust => "Stardust Pillar",
            Event::Vortex => "Vortex Pillar",
            Event::Nebula => "Nebula Pillar",
            Event::Legion => "Frost Legion",
            Event::Frost => "Frost Moon",
            Event::Pumpkin => "Pumpkin Moon",
        }
    }
}

} // verus!
