use vstd::prelude::*;

use crate::common::Probability;

verus! {

/// The kinds of region a journey can pass through; anomalies are native to
/// some of them.
#[derive(Debug, Clone, Copy, PartialEq, Eq, Structural)]
pub enum RegionType {
    Forest,
    City,
    Swamp,
    Grassland,
}

impl Default for RegionType {
    /// Journeys start in a forest.
    fn default() -> (r: Self)
        ensures
            r == RegionType::Forest,
    {
        RegionType::Forest
    }
}

impl RegionType {
    /// The characters of this region's map emoji.
    pub open spec fn spec_emoji(self) -> Seq<char> {
        match self {
            RegionType::City => "🏙️"@,
            RegionType::Forest => "🌲"@,
            RegionType::Swamp => "🍀"@,
            RegionType::Grassland => "🏞️"@,
        }
    }

    /// The characters of this region's display name.
    pub open spec fn spec_name(self) -> Seq<char> {
        match self {
            RegionType::City => "Cidade"@,
            RegionType::Forest => "Floresta"@,
            RegionType::Swamp => "Pântano"@,
            RegionType::Grassland => "Planície"@,
        }
    }

    /// The map emoji of the region.
    pub fn emoji(&self) -> (r: &'static str)
        ensures
            r@ == self.spec_emoji(),
    {
        match self {
            RegionType::City => "🏙️",
            RegionType::Forest => "🌲",
            RegionType::Swamp => "🍀",
            RegionType::Grassland => "🏞️",
        }
    }

    /// The display name of the region.
    pub fn name(&self) -> (r: &'static str)
        ensures
            r@ == self.spec_name(),
    {
        match self {
            RegionType::City => "Cidade",
            RegionType::Forest => "Floresta",
            RegionType::Swamp => "Pântano",
            RegionType::Grassland => "Planície",
        }
    }

    /// How likely a random encounter is in this region: none in a city, 30%
    /// in a swamp, 50% elsewhere.
    pub fn rarity(&self) -> (r: Probability)
        ensures
            r.spec_value() == match *self {
                RegionType::City => 0int,
                RegionType::Swamp => 30int,
                _ => 50int,
            },
            r.wf(),
    {
        match self {
            RegionType::City => Probability::new(0),
            RegionType::Swamp => Probability::new(30),
            _ => Probability::new(50),
        }
    }
}

/// The set of region kinds an anomaly archetype is native to.
#[derive(Debug, Clone, Copy, PartialEq, Eq, Structural)]
pub struct RegionSet {
    pub forest: bool,
    pub city: bool,
    pub swamp: bool,
    pub grassland: bool,
}

impl RegionSet {
    /// Whether the set holds the given region kind.
    pub open spec fn spec_contains(self, region: RegionType) -> bool {
        match region {
            RegionType::Forest => self.forest,
            RegionType::City => self.city,
            RegionType::Swamp => self.swamp,
            RegionType::Grassland => self.grassland,
        }
    }

    /// Whether the set holds the given region kind.
    pub fn contains(&self, region: RegionType) -> (r: bool)
        ensures
            r == self.spec_contains(region),
    {
        match region {
            RegionType::Forest => self.forest,
            RegionType::City => self.city,
            RegionType::Swamp => self.swamp,
            RegionType::Grassland => self.grassland,
        }
    }
}

} // verus!
