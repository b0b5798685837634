use vstd::prelude::*;

verus! {

/// A biome or environment-phase tag an enemy can appear in.
///
/// Categorical: values are compared only for equality, never ordered.
#[derive(Debug, Clone, Copy, PartialEq, Eq, Structural)]
pub enum Biome {
    Any,
    Forest,
    Snow,
    Jungle,
    Desert,
    Ocean,
    Corruption,
    Crimson,
    Hallow,
    Mushroom,
    Graveyard,
    Dungeon,
    /// Granite or Marble.
    Margranite,
    Day,
    Night,
}

impl Biome {
    /// The display text of each biome tag.
    pub open spec fn label_spec(self) -> Seq<char> {
        match self {
            Biome::Any => "Any"@,
            Biome::Forest => "Forest"@,
            Biome::Snow => "Snow"@,
            Biome::Jungle => "Jungle"@,
            Biome::Desert => "Desert"@,
            Biome::Ocean => "Ocean"@,
            Biome::Corruption => "Corruption"@,
            Biome::Crimson => "Crimson"@,
            Biome::Hallow => "Hallow"@,
            Biome::Mushroom => "Glowing Mushrooms"@,
            Biome::Graveyard => "Graveyard"@,
            Biome::Dungeon => "Dungeon"@,
            Biome::Margranite => "Marble or Granite"@,
            Biome::Day => "Day"@,
            Biome::Night => "Night"@,
        }
    }

    /// Display text for this biome tag.
    pub fn label(&self) -> (r: &'static str)
        ensures
            r@ == self.label_spec(),
    {
        match self {
            Biome::Any => "Any",
            Biome::Forest => "Forest",
            Biome::Snow => "Snow",
            Biome::Jungle => "Jungle",
            Biome::Desert => "Desert",
            Biome::Ocean => "Ocean",
            Biome::Corruption => "Corruption",
            Biome::Crimson => "Crimson",
            Biome::Hallow => "Hallow",
            Biome::Mushroom => "Glowing Mushrooms",
            Biome::Graveyard => "Graveyard",
            Biome::Dungeon => "Dungeon",
            Biome::Margranite => "Marble or Granite",
            Biome::Day => "Day",
            Biome::Night => "Night",
        }
    }
}

} // verus!
