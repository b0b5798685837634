use vstd::prelude::*;

use crate::prelude::Diff;

verus! {

/// A world depth layer an enemy can appear in.
///
/// Categorical: values are compared only for equality, never ordered.
#[derive(Debug, Clone, Copy, PartialEq, Eq, Structural)]
pub enum Layer {
    Any,
    Surface,
    Underground,
    Caverns,
    Underworld,
}

impl Layer {
    /// The display text of each layer tag.
    pub open spec fn label_spec(self) -> Seq<char> {
        match self {
            Layer::Any => "Any"@,
            Layer::Surface => "Surface"@,
            Layer::Underground => "Underground"@,
            Layer::Caverns => "Caverns"@,
            Layer::Underworld => "Underworld"@,
        }
    }

    /// Display text for this layer tag.
    pub fn label(&self) -> (r: &'static str)
        ensures
            r@ == self.label_spec(),
    {
        match self {
            Layer::Any => "Any",
            Layer::Surface => "Surface",
            Layer::Underground => "Underground",
            Layer::Caverns => "Caverns",
            Layer::Underworld => "Underworld",
        }
    }
}

pub type LayerDiff = Diff<Layer>;

} // verus!
