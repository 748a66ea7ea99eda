//! The checklist value: ordered categories of (display label, flag) pairs.
//!
//! Labels are presentation metadata and must be preserved byte for byte;
//! within a category the declared order of entries is part of the output
//! format, so categories are ordered label-to-flag maps, not hash maps.

use vstd::prelude::*;

verus! {

/// One checklist category: display labels in a fixed declared order, each
/// paired with its completion flag. Labels within a category are unique by
/// construction of the mapping tables.
#[derive(Debug, PartialEq)]
pub struct ChecksMap {
    pub entries: Vec<(String, bool)>,
}

impl View for ChecksMap {
    type V = Seq<(Seq<char>, bool)>;

    open spec fn view(&self) -> Seq<(Seq<char>, bool)> {
        self.entries@.map(|i: int, e: (String, bool)| (e.0@, e.1))
    }
}

impl ChecksMap {
    /// A category with no entries.
    pub fn empty() -> (r: ChecksMap)
        ensures
            r@ == Seq::<(Seq<char>, bool)>::empty(),
    {
        let r = ChecksMap { entries: Vec::new() };
        proof {
            assert(r@ =~= Seq::<(Seq<char>, bool)>::empty());
        }
        r
    }

    /// Appends one (label, flag) entry, keeping all earlier entries in order.
    pub fn push_entry(&mut self, label: &str, value: bool)
        ensures
            final(self)@ == old(self)@.push((label@, value)),
    {
        self.entries.push((label.to_owned(), value));
        proof {
            assert(final(self)@ =~= old(self)@.push((label@, value)));
        }
    }

    /// Number of entries in the category.
    pub fn len(&self) -> (n: usize)
        ensures
            n == self@.len(),
    {
        self.entries.len()
    }
}

impl Clone for ChecksMap {
    fn clone(&self) -> (r: Self)
        ensures
            r@ == self@,
    {
        let mut entries: Vec<(String, bool)> = Vec::new();
        let mut i: usize = 0;
        while i < self.entries.len()
            invariant
                i <= self.entries.len(),
                entries@ =~= self.entries@.subrange(0, i as int),
            decreases self.entries.len() - i,
        {
            let e = &self.entries[i];
            entries.push((e.0.clone(), e.1));
            i = i + 1;
        }
        proof {
            assert(entries@ =~= self.entries@);
        }
        ChecksMap { entries }
    }
}

/// Mathematical model of a category: the ordered (label, flag) pairs.
pub type CategoryV = Seq<(Seq<char>, bool)>;

/// Mathematical model of the primary game variant's checklist.
pub struct HollowKnightChecksV {
    pub bosses: CategoryV,
    pub optional_bosses: CategoryV,
    pub equipment: CategoryV,
    pub nail: CategoryV,
    pub dream_nail: CategoryV,
    pub nail_arts: CategoryV,
    pub spells: CategoryV,
    pub charms: CategoryV,
    pub mask_shards: CategoryV,
    pub vessel_fragments: CategoryV,
    pub dreamers: CategoryV,
    pub dream_warriors: CategoryV,
    pub dream_bosses: CategoryV,
    pub colosseum: CategoryV,
    pub godhome: CategoryV,
    pub grubs: CategoryV,
    pub items: CategoryV,
    pub relics: CategoryV,
    pub whispering_roots: CategoryV,
}

/// The checklist for the primary game variant: a fixed set of categories,
/// each an ordered mapping from display label to completion flag.
#[derive(Debug, PartialEq)]
pub struct HollowKnightChecks {
    pub bosses: ChecksMap,
    pub optional_bosses: ChecksMap,
    pub equipment: ChecksMap,
    pub nail: ChecksMap,
    pub dream_nail: ChecksMap,
    pub nail_arts: ChecksMap,
    pub spells: ChecksMap,
    pub charms: ChecksMap,
    pub mask_shards: ChecksMap,
    pub vessel_fragments: ChecksMap,
    pub dreamers: ChecksMap,
    pub dream_warriors: ChecksMap,
    pub dream_bosses: ChecksMap,
    pub colosseum: ChecksMap,
    pub godhome: ChecksMap,
    pub grubs: ChecksMap,
    pub items: ChecksMap,
    pub relics: ChecksMap,
    pub whispering_roots: ChecksMap,
}

impl View for HollowKnightChecks {
    type V = HollowKnightChecksV;

    open spec fn view(&self) -> HollowKnightChecksV {
        HollowKnightChecksV {
            bosses: self.bosses@,
            optional_bosses: self.optional_bosses@,
            equipment: self.equipment@,
            nail: self.nail@,
            dream_nail: self.dream_nail@,
            nail_arts: self.nail_arts@,
            spells: self.spells@,
            charms: self.charms@,
            mask_shards: self.mask_shards@,
            vessel_fragments: self.vessel_fragments@,
            dreamers: self.dreamers@,
            dream_warriors: self.dream_warriors@,
            dream_bosses: self.dream_bosses@,
            colosseum: self.colosseum@,
            godhome: self.godhome@,
            grubs: self.grubs@,
            items: self.items@,
            relics: self.relics@,
            whispering_roots: self.whispering_roots@,
        }
    }
}

/// A fresh checklist for the primary variant: every category present, empty.
pub open spec fn empty_hollow_knight_checks() -> HollowKnightChecksV {
    HollowKnightChecksV {
        bosses: Seq::empty(),
        optional_bosses: Seq::empty(),
        equipment: Seq::empty(),
        nail: Seq::empty(),
        dream_nail: Seq::empty(),
        nail_arts: Seq::empty(),
        spells: Seq::empty(),
        charms: Seq::empty(),
        mask_shards: Seq::empty(),
        vessel_fragments: Seq::empty(),
        dreamers: Seq::empty(),
        dream_warriors: Seq::empty(),
        dream_bosses: Seq::empty(),
        colosseum: Seq::empty(),
        godhome: Seq::empty(),
        grubs: Seq::empty(),
        items: Seq::empty(),
        relics: Seq::empty(),
        whispering_roots: Seq::empty(),
    }
}

impl Default for HollowKnightChecks {
    fn default() -> (r: Self)
        ensures
            r@ == empty_hollow_knight_checks(),
    {
        HollowKnightChecks {
            bosses: ChecksMap::empty(),
            optional_bosses: ChecksMap::empty(),
            equipment: ChecksMap::empty(),
            nail: ChecksMap::empty(),
            dream_nail: ChecksMap::empty(),
            nail_arts: ChecksMap::empty(),
            spells: ChecksMap::empty(),
            charms: ChecksMap::empty(),
            mask_shards: ChecksMap::empty(),
            vessel_fragments: ChecksMap::empty(),
            dreamers: ChecksMap::empty(),
            dream_warriors: ChecksMap::empty(),
            dream_bosses: ChecksMap::empty(),
            colosseum: ChecksMap::empty(),
            godhome: ChecksMap::empty(),
            grubs: ChecksMap::empty(),
            items: ChecksMap::empty(),
            relics: ChecksMap::empty(),
            whispering_roots: ChecksMap::empty(),
        }
    }
}

impl Clone for HollowKnightChecks {
    fn clone(&self) -> (r: Self)
        ensures
            r@ == self@,
    {
        HollowKnightChecks {
            bosses: self.bosses.clone(),
            optional_bosses: self.optional_bosses.clone(),
            equipment: self.equipment.clone(),
            nail: self.nail.clone(),
            dream_nail: self.dream_nail.clone(),
            nail_arts: self.nail_arts.clone(),
            spells: self.spells.clone(),
            charms: self.charms.clone(),
            mask_shards: self.mask_shards.clone(),
            vessel_fragments: self.vessel_fragments.clone(),
            dreamers: self.dreamers.clone(),
            dream_warriors: self.dream_warriors.clone(),
            dream_bosses: self.dream_bosses.clone(),
            colosseum: self.colosseum.clone(),
            godhome: self.godhome.clone(),
            grubs: self.grubs.clone(),
            items: self.items.clone(),
            relics: self.relics.clone(),
            whispering_roots: self.whispering_roots.clone(),
        }
    }
}

/// Mathematical model of the second game variant's placeholder checklist.
pub struct SilksongChecksV {
    pub bosses: CategoryV,
    pub things: CategoryV,
}

/// Placeholder checklist structure for the second game variant; the mapper
/// does not populate it.
#[derive(Debug, PartialEq)]
pub struct SilksongChecks {
    pub bosses: ChecksMap,
    pub things: ChecksMap,
}

impl View for SilksongChecks {
    type V = SilksongChecksV;

    open spec fn view(&self) -> SilksongChecksV {
        SilksongChecksV { bosses: self.bosses@, things: self.things@ }
    }
}

/// A fresh placeholder checklist for the second variant.
pub open spec fn empty_silksong_checks() -> SilksongChecksV {
    SilksongChecksV { bosses: Seq::empty(), things: Seq::empty() }
}

impl Default for SilksongChecks {
    fn default() -> (r: Self)
        ensures
            r@ == empty_silksong_checks(),
    {
        SilksongChecks { bosses: ChecksMap::empty(), things: ChecksMap::empty() }
    }
}

impl Clone for SilksongChecks {
    fn clone(&self) -> (r: Self)
        ensures
            r@ == self@,
    {
        SilksongChecks { bosses: self.bosses.clone(), things: self.things.clone() }
    }
}

/// Mathematical model of a decoded checklist, tagged by game variant.
pub enum GameSerV {
    HollowKnight(HollowKnightChecksV),
    Silksong(SilksongChecksV),
}

/// A decoded checklist, tagged by which game variant it belongs to.
#[derive(Debug, PartialEq)]
pub enum GameSer {
    HollowKnight(HollowKnightChecks),
    Silksong(SilksongChecks),
}

impl View for GameSer {
    type V = GameSerV;

    open spec fn view(&self) -> GameSerV {
        match self {
            GameSer::HollowKnight(c) => GameSerV::HollowKnight(c@),
            GameSer::Silksong(c) => GameSerV::Silksong(c@),
        }
    }
}

impl Clone for GameSer {
    fn clone(&self) -> (r: Self)
        ensures
            r@ == self@,
    {
        match self {
            GameSer::HollowKnight(c) => GameSer::HollowKnight(c.clone()),
            GameSer::Silksong(c) => GameSer::Silksong(c.clone()),
        }
    }
}

} // verus!
