//! The kingdom: the data that the player looks at and the game changes.

use vstd::prelude::*;
use crate::data::craft::{Craft, CraftType};
use crate::data::village::{Village, VillageView};

verus! {

/// A kingdom: its villages, and its crafts by category. The first village
/// is the one that grows as the game runs.
#[derive(Debug, Clone, PartialEq, Eq)]
pub struct Kingdom {
    /// The villages that make up the kingdom.
    pub villages: Vec<Village>,
    /// The crafts practised in the kingdom, one entry for each category.
    pub crafts: Vec<(CraftType, Vec<Craft>)>,
}

/// A kingdom as a mathematical value.
pub struct KingdomView {
    /// The villages, in their order.
    pub villages: Seq<VillageView>,
    /// The categories with their crafts, in their order.
    pub crafts: Seq<(CraftType, Seq<Craft>)>,
}

/// The villages of a list as mathematical values.
pub open spec fn village_views(villages: Seq<Village>) -> Seq<VillageView> {
    villages.map_values(|village: Village| village@)
}

/// The categories of a list, each with its crafts, as mathematical values.
pub open spec fn craft_views(crafts: Seq<(CraftType, Vec<Craft>)>) -> Seq<(CraftType, Seq<Craft>)> {
    crafts.map_values(|entry: (CraftType, Vec<Craft>)| (entry.0, entry.1@))
}

impl View for Kingdom {
    type V = KingdomView;

    open spec fn view(&self) -> KingdomView {
        KingdomView { villages: village_views(self.villages@), crafts: craft_views(self.crafts@) }
    }
}

impl KingdomView {
    /// A loaded kingdom has a village to grow, no village has a negative
    /// number of citizens, and no category of craft is listed twice.
    pub open spec fn wf(self) -> bool {
        &&& self.villages.len() > 0
        &&& forall|i: int| 0 <= i < self.villages.len() ==> (#[trigger] self.villages[i]).num_citizen >= 0
        &&& forall|i: int, j: int|
            0 <= i < j < self.crafts.len() ==> (#[trigger] self.crafts[i]).0 != (#[trigger] self.crafts[j]).0
    }

    /// How many citizens the first village has.
    pub open spec fn default_citizens(self) -> int
        recommends
            self.villages.len() > 0,
    {
        self.villages[0].num_citizen
    }

    /// The kingdom after its first village has grown by `citizen`.
    pub open spec fn add_citizen(self, citizen: int) -> KingdomView
        recommends
            self.villages.len() > 0,
    {
        KingdomView {
            villages: self.villages.update(0, self.villages[0].grown(citizen)),
            crafts: self.crafts,
        }
    }

    /// Growth by a number that is not negative keeps a kingdom well formed.
    pub proof fn lemma_growth_keeps_wf(self, citizen: int)
        requires
            self.wf(),
            citizen >= 0,
        ensures
            self.add_citizen(citizen).wf(),
            self.add_citizen(citizen).default_citizens() == self.default_citizens() + citizen,
    {
        let grown = self.add_citizen(citizen);
        assert forall|i: int| 0 <= i < grown.villages.len() implies (#[trigger] grown.villages[i]).num_citizen >= 0 by {
            assert(self.villages[i].num_citizen >= 0);
        }
    }
}

impl Kingdom {
    /// Lets the first village grow by `citizen`. Nothing else changes.
    pub fn add_citizen(&mut self, citizen: i32)
        requires
            old(self)@.villages.len() > 0,
            i32::MIN <= old(self)@.default_citizens() + citizen <= i32::MAX,
        ensures
            final(self)@ == old(self)@.add_citizen(citizen as int),
    {
        self.villages[0].num_citizen = self.villages[0].num_citizen + citizen;
        assert(self@.villages =~= old(self)@.villages.update(0, old(self)@.villages[0].grown(citizen as int)));
    }
}

} // verus!
