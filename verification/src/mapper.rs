//! The checklist mapper: derives the categorized completion checklist from
//! the raw save representation. Each category is a fixed ordered table of
//! (display label, predicate) pairs; predicates read a flag verbatim,
//! compare a tiered-unlock level against a fixed threshold, look an event
//! up in the scene-event log, or combine such reads.

use vstd::prelude::*;

use crate::ParseError;
use crate::checks::CategoryV;
use crate::checks::ChecksMap;
use crate::checks::HollowKnightChecks;
use crate::checks::HollowKnightChecksV;
use crate::json::str_eq;
use crate::save::RawSave;
use crate::save::RawSaveV;
use crate::save::SaveFile;
use crate::save::SaveFileV;
use crate::save::SceneData;
use crate::save::SceneObjectBoolV;

verus! {

/// The record is the given scene event and it is activated.
pub open spec fn event_hit(e: SceneObjectBoolV, scene: Seq<char>, id: Seq<char>) -> bool {
    e.scene_name == scene && e.id == id && e.activated
}

/// The scene-event log holds an activated entry for the given
/// (scene name, event id) pair.
pub open spec fn scene_on(scenes: Seq<SceneObjectBoolV>, scene: Seq<char>, id: Seq<char>) -> bool {
    exists|i: int| 0 <= i < scenes.len() && #[trigger] event_hit(scenes[i], scene, id)
}

/// Looks a (scene name, event id) pair up in the scene-event log.
pub fn scene_activated(sd: &SceneData, scene: &str, id: &str) -> (r: bool)
    ensures
        r == scene_on(sd@, scene@, id@),
{
    let items = &sd.persistent_bool_items;
    let mut i: usize = 0;
    while i < items.len()
        invariant
            items == &sd.persistent_bool_items,
            i <= items@.len(),
            forall|j: int| 0 <= j < i ==> !event_hit(#[trigger] sd@[j], scene@, id@),
        decreases items@.len() - i,
    {
        let e = &items[i];
        if str_eq(e.scene_name.as_str(), scene) && str_eq(e.id.as_str(), id) && e.activated {
            proof {
                assert(event_hit(sd@[i as int], scene@, id@));
            }
            return true;
        }
        i = i + 1;
    }
    false
}

/// This stretch of the category table.
pub open spec fn bosses_part1_of(s: SaveFileV) -> CategoryV {
    seq![
        ("[Broken Vessel]"@, s.player_data.killed_infected_knight),
        ("[Brooding Mawlek]"@, s.player_data.killed_mawlek),
        ("[The Collector]"@, s.player_data.killed_jar_collector),
        ("[Dung Defender]"@, s.player_data.defeated_dung_defender),
        ("[False Knight]"@, s.player_data.false_knight_defeated),
        ("[Grimm]"@, s.player_data.killed_grimm),
        ("[Gruz Mother]"@, s.player_data.killed_big_fly),
        ("[Hive Knight]"@, s.player_data.killed_hive_knight),
    ]
}

/// Appends this stretch of the category table.
fn bosses_part1(m: &mut ChecksMap, save: &SaveFile)
    ensures
        final(m)@ == old(m)@ + bosses_part1_of(save@),
{
    let pd = &save.player_data;
    m.push_entry("[Broken Vessel]", pd.killed_infected_knight);
    m.push_entry("[Brooding Mawlek]", pd.killed_mawlek);
    m.push_entry("[The Collector]", pd.killed_jar_collector);
    m.push_entry("[Dung Defender]", pd.defeated_dung_defender);
    m.push_entry("[False Knight]", pd.false_knight_defeated);
    m.push_entry("[Grimm]", pd.killed_grimm);
    m.push_entry("[Gruz Mother]", pd.killed_big_fly);
    m.push_entry("[Hive Knight]", pd.killed_hive_knight);
    proof {
        assert(final(m)@ =~= old(m)@ + bosses_part1_of(save@));
    }
}

/// This stretch of the category table.
pub open spec fn bosses_part2_of(s: SaveFileV) -> CategoryV {
    seq![
        ("[Hornet Protector]"@, s.player_data.hornet1_defeated),
        ("[Hornet Sentinel]"@, s.player_data.hornet_outskirts_defeated),
        ("[Mantis Lords]"@, s.player_data.defeated_mantis_lords),
        ("[Nosk]"@, s.player_data.killed_mimic_spider),
        ("[Soul Master]"@, s.player_data.mage_lord_defeated),
        ("[Traitor Lord]"@, s.player_data.killed_traitor_lord),
        ("[Uumuu]"@, s.player_data.defeated_mega_jelly),
        ("[Watcher Knight]"@, s.player_data.killed_black_knight),
    ]
}

/// Appends this stretch of the category table.
fn bosses_part2(m: &mut ChecksMap, save: &SaveFile)
    ensures
        final(m)@ == old(m)@ + bosses_part2_of(save@),
{
    let pd = &save.player_data;
    m.push_entry("[Hornet Protector]", pd.hornet1_defeated);
    m.push_entry("[Hornet Sentinel]", pd.hornet_outskirts_defeated);
    m.push_entry("[Mantis Lords]", pd.defeated_mantis_lords);
    m.push_entry("[Nosk]", pd.killed_mimic_spider);
    m.push_entry("[Soul Master]", pd.mage_lord_defeated);
    m.push_entry("[Traitor Lord]", pd.killed_traitor_lord);
    m.push_entry("[Uumuu]", pd.defeated_mega_jelly);
    m.push_entry("[Watcher Knight]", pd.killed_black_knight);
    proof {
        assert(final(m)@ =~= old(m)@ + bosses_part2_of(save@));
    }
}

/// The fixed (label, predicate) table of this category, stretch by
/// stretch in its declared order.
pub open spec fn bosses_of(s: SaveFileV) -> CategoryV {
    bosses_part1_of(s) + bosses_part2_of(s)
}

/// Builds this category in its fixed declared order.
fn bosses_checks(save: &SaveFile) -> (r: ChecksMap)
    ensures
        r@ == bosses_of(save@),
{
    let mut m = ChecksMap::empty();
    bosses_part1(&mut m, save);
    bosses_part2(&mut m, save);
    proof {
        assert(Seq::<(Seq<char>, bool)>::empty() + bosses_part1_of(save@) =~= bosses_part1_of(save@));
    }
    m
}

/// This stretch of the category table.
pub open spec fn optional_bosses_part1_of(s: SaveFileV) -> CategoryV {
    seq![
        ("[Absolute Radiance]"@, s.player_data.boss_door_state_tier5.completed),
        ("[Brothers Oro & Mato]"@, s.player_data.killed_nail_bros),
        ("[Crystal Guardian]"@, s.player_data.killed_mega_beam_miner),
        ("[Enraged Guardian]"@, scene_on(s.scenes, "Mines_32"@, "Zombie Beam Miner Rematch"@)),
        ("[Flukemarm]"@, s.player_data.killed_flukeman),
        ("[God Tamer]"@, s.player_data.killed_lobster_lancer),
        ("[Great Nailsage Sly]"@, s.player_data.killed_nailsage),
        ("[Hollow Knight]"@, s.player_data.killed_hollow_knight),
    ]
}

/// Appends this stretch of the category table.
fn optional_bosses_part1(m: &mut ChecksMap, save: &SaveFile)
    ensures
        final(m)@ == old(m)@ + optional_bosses_part1_of(save@),
{
    let pd = &save.player_data;
    m.push_entry("[Absolute Radiance]", pd.boss_door_state_tier5.completed);
    m.push_entry("[Brothers Oro & Mato]", pd.killed_nail_bros);
    m.push_entry("[Crystal Guardian]", pd.killed_mega_beam_miner);
    m.push_entry("[Enraged Guardian]", scene_activated(&save.scene_data, "Mines_32", "Zombie Beam Miner Rematch"));
    m.push_entry("[Flukemarm]", pd.killed_flukeman);
    m.push_entry("[God Tamer]", pd.killed_lobster_lancer);
    m.push_entry("[Great Nailsage Sly]", pd.killed_nailsage);
    m.push_entry("[Hollow Knight]", pd.killed_hollow_knight);
    proof {
        assert(final(m)@ =~= old(m)@ + optional_bosses_part1_of(save@));
    }
}

/// This stretch of the category table.
pub open spec fn optional_bosses_part2_of(s: SaveFileV) -> CategoryV {
    seq![
        ("[Massive Moss Charger]"@, s.player_data.killed_mega_moss_charger),
        ("[Oblobbles]"@, s.player_data.killed_oblobble),
        ("[Paintmaster Sheo]"@, s.player_data.killed_paintmaster),
        ("[Pure Vessel]"@, s.player_data.killed_hollow_knight_prime),
        ("[Radiance]"@, s.player_data.killed_final_boss),
        ("[Sisters of Battle]"@, s.player_data.boss_door_state_tier5.completed),
        ("[Soul Warrior]"@, s.player_data.killed_mage_knight),
        ("[Vengefly King]"@, s.player_data.killed_big_buzzer),
    ]
}

/// Appends this stretch of the category table.
fn optional_bosses_part2(m: &mut ChecksMap, save: &SaveFile)
    ensures
        final(m)@ == old(m)@ + optional_bosses_part2_of(save@),
{
    let pd = &save.player_data;
    m.push_entry("[Massive Moss Charger]", pd.killed_mega_moss_charger);
    m.push_entry("[Oblobbles]", pd.killed_oblobble);
    m.push_entry("[Paintmaster Sheo]", pd.killed_paintmaster);
    m.push_entry("[Pure Vessel]", pd.killed_hollow_knight_prime);
    m.push_entry("[Radiance]", pd.killed_final_boss);
    m.push_entry("[Sisters of Battle]", pd.boss_door_state_tier5.completed);
    m.push_entry("[Soul Warrior]", pd.killed_mage_knight);
    m.push_entry("[Vengefly King]", pd.killed_big_buzzer);
    proof {
        assert(final(m)@ =~= old(m)@ + optional_bosses_part2_of(save@));
    }
}

/// This stretch of the category table.
pub open spec fn optional_bosses_part3_of(s: SaveFileV) -> CategoryV {
    seq![
        ("[Winged Nosk]"@, s.player_data.boss_door_state_tier5.completed),
        ("[Zote]"@, s.player_data.colosseum_bronze_completed),
    ]
}

/// Appends this stretch of the category table.
fn optional_bosses_part3(m: &mut ChecksMap, save: &SaveFile)
    ensures
        final(m)@ == old(m)@ + optional_bosses_part3_of(save@),
{
    let pd = &save.player_data;
    m.push_entry("[Winged Nosk]", pd.boss_door_state_tier5.completed);
    m.push_entry("[Zote]", pd.colosseum_bronze_completed);
    proof {
        assert(final(m)@ =~= old(m)@ + optional_bosses_part3_of(save@));
    }
}

/// The fixed (label, predicate) table of this category, stretch by
/// stretch in its declared order.
pub open spec fn optional_bosses_of(s: SaveFileV) -> CategoryV {
    optional_bosses_part1_of(s) + optional_bosses_part2_of(s) + optional_bosses_part3_of(s)
}

/// Builds this category in its fixed declared order.
fn optional_bosses_checks(save: &SaveFile) -> (r: ChecksMap)
    ensures
        r@ == optional_bosses_of(save@),
{
    let mut m = ChecksMap::empty();
    optional_bosses_part1(&mut m, save);
    optional_bosses_part2(&mut m, save);
    optional_bosses_part3(&mut m, save);
    proof {
        assert(Seq::<(Seq<char>, bool)>::empty() + optional_bosses_part1_of(save@) =~= optional_bosses_part1_of(save@));
    }
    m
}

/// The fixed (label, predicate) table of this category.
pub open spec fn equipment_of(s: SaveFileV) -> CategoryV {
    seq![
        ("[Crystal Heart]"@, s.player_data.has_super_dash),
        ("[Isma's Tear]"@, s.player_data.has_acid_armour),
        ("[Mantis Claw]"@, s.player_data.has_walljump),
        ("[Monarch Wings]"@, s.player_data.has_double_jump),
        ("[Mothwing Cloak]"@, s.player_data.has_dash),
        ("[Shade Cloak]"@, s.player_data.has_shadow_dash),
        ("[King's Brand]"@, s.player_data.has_kings_brand),
    ]
}

/// Builds this category in its fixed declared order.
fn equipment_checks(save: &SaveFile) -> (r: ChecksMap)
    ensures
        r@ == equipment_of(save@),
{
    let pd = &save.player_data;
    let mut m = ChecksMap::empty();
    m.push_entry("[Crystal Heart]", pd.has_super_dash);
    m.push_entry("[Isma's Tear]", pd.has_acid_armour);
    m.push_entry("[Mantis Claw]", pd.has_walljump);
    m.push_entry("[Monarch Wings]", pd.has_double_jump);
    m.push_entry("[Mothwing Cloak]", pd.has_dash);
    m.push_entry("[Shade Cloak]", pd.has_shadow_dash);
    m.push_entry("[King's Brand]", pd.has_kings_brand);
    proof {
        assert(m@ =~= equipment_of(save@));
    }
    m
}

/// The fixed (label, predicate) table of this category.
pub open spec fn nail_of(s: SaveFileV) -> CategoryV {
    seq![
        ("[Sharpened Nail](Nail#Upgrades)"@, s.player_data.nail_smith_upgrades > 0),
        ("[Channelled Nail](Nail#Upgrades)"@, s.player_data.nail_smith_upgrades > 1),
        ("[Coiled Nail](Nail#Upgrades)"@, s.player_data.nail_smith_upgrades > 2),
        ("[Pure Nail](Nail#Upgrades)"@, s.player_data.nail_smith_upgrades > 3),
    ]
}

/// Builds this category in its fixed declared order.
fn nail_checks(save: &SaveFile) -> (r: ChecksMap)
    ensures
        r@ == nail_of(save@),
{
    let pd = &save.player_data;
    let mut m = ChecksMap::empty();
    m.push_entry("[Sharpened Nail](Nail#Upgrades)", pd.nail_smith_upgrades > 0);
    m.push_entry("[Channelled Nail](Nail#Upgrades)", pd.nail_smith_upgrades > 1);
    m.push_entry("[Coiled Nail](Nail#Upgrades)", pd.nail_smith_upgrades > 2);
    m.push_entry("[Pure Nail](Nail#Upgrades)", pd.nail_smith_upgrades > 3);
    proof {
        assert(m@ =~= nail_of(save@));
    }
    m
}

/// The fixed (label, predicate) table of this category.
pub open spec fn dream_nail_of(s: SaveFileV) -> CategoryV {
    seq![
        ("[Dream Nail]"@, s.player_data.has_dream_nail),
        ("[Awoken Dream Nail]"@, (s.player_data.dream_nail_upgraded && s.player_data.has_dream_gate)),
        ("[Ascension](Seer)"@, s.player_data.moth_departed),
    ]
}

/// Builds this category in its fixed declared order.
fn dream_nail_checks(save: &SaveFile) -> (r: ChecksMap)
    ensures
        r@ == dream_nail_of(save@),
{
    let pd = &save.player_data;
    let mut m = ChecksMap::empty();
    m.push_entry("[Dream Nail]", pd.has_dream_nail);
    m.push_entry("[Awoken Dream Nail]", (pd.dream_nail_upgraded && pd.has_dream_gate));
    m.push_entry("[Ascension](Seer)", pd.moth_departed);
    proof {
        assert(m@ =~= dream_nail_of(save@));
    }
    m
}

/// The fixed (label, predicate) table of this category.
pub open spec fn nail_arts_of(s: SaveFileV) -> CategoryV {
    seq![
        ("[Cyclone Slash]"@, s.player_data.has_cyclone),
        ("[Dash Slash]"@, s.player_data.has_upward_slash),
        ("[Great Slash]"@, s.player_data.has_dash_slash),
    ]
}

/// Builds this category in its fixed declared order.
fn nail_arts_checks(save: &SaveFile) -> (r: ChecksMap)
    ensures
        r@ == nail_arts_of(save@),
{
    let pd = &save.player_data;
    let mut m = ChecksMap::empty();
    m.push_entry("[Cyclone Slash]", pd.has_cyclone);
    m.push_entry("[Dash Slash]", pd.has_upward_slash);
    m.push_entry("[Great Slash]", pd.has_dash_slash);
    proof {
        assert(m@ =~= nail_arts_of(save@));
    }
    m
}

/// The fixed (label, predicate) table of this category.
pub open spec fn spells_of(s: SaveFileV) -> CategoryV {
    seq![
        ("[Desolate Dive]"@, s.player_data.quake_level > 0),
        ("[Descending Dark]"@, s.player_data.quake_level > 1),
        ("[Howling Wraiths]"@, s.player_data.scream_level > 0),
        ("[Abyss Shriek]"@, s.player_data.scream_level > 1),
        ("[Vengeful Spirit]"@, s.player_data.fireball_level > 0),
        ("[Shade Soul]"@, s.player_data.fireball_level > 1),
    ]
}

/// Builds this category in its fixed declared order.
fn spells_checks(save: &SaveFile) -> (r: ChecksMap)
    ensures
        r@ == spells_of(save@),
{
    let pd = &save.player_data;
    let mut m = ChecksMap::empty();
    m.push_entry("[Desolate Dive]", pd.quake_level > 0);
    m.push_entry("[Descending Dark]", pd.quake_level > 1);
    m.push_entry("[Howling Wraiths]", pd.scream_level > 0);
    m.push_entry("[Abyss Shriek]", pd.scream_level > 1);
    m.push_entry("[Vengeful Spirit]", pd.fireball_level > 0);
    m.push_entry("[Shade Soul]", pd.fireball_level > 1);
    proof {
        assert(m@ =~= spells_of(save@));
    }
    m
}

/// This stretch of the category table.
pub open spec fn charms_part1_of(s: SaveFileV) -> CategoryV {
    seq![
        ("[Wayward Compass]"@, s.player_data.got_charm_2),
        ("[Gathering Swarm]"@, s.player_data.got_charm_1),
        ("[Stalwart Shell]"@, s.player_data.got_charm_4),
        ("[Soul Catcher]"@, s.player_data.got_charm_20),
        ("[Shaman Stone]"@, s.player_data.got_charm_19),
        ("[Soul Eater]"@, s.player_data.got_charm_21),
        ("[Dashmaster]"@, s.player_data.got_charm_31),
        ("[Sprintmaster]"@, s.player_data.got_charm_37),
    ]
}

/// Appends this stretch of the category table.
fn charms_part1(m: &mut ChecksMap, save: &SaveFile)
    ensures
        final(m)@ == old(m)@ + charms_part1_of(save@),
{
    let pd = &save.player_data;
    m.push_entry("[Wayward Compass]", pd.got_charm_2);
    m.push_entry("[Gathering Swarm]", pd.got_charm_1);
    m.push_entry("[Stalwart Shell]", pd.got_charm_4);
    m.push_entry("[Soul Catcher]", pd.got_charm_20);
    m.push_entry("[Shaman Stone]", pd.got_charm_19);
    m.push_entry("[Soul Eater]", pd.got_charm_21);
    m.push_entry("[Dashmaster]", pd.got_charm_31);
    m.push_entry("[Sprintmaster]", pd.got_charm_37);
    proof {
        assert(final(m)@ =~= old(m)@ + charms_part1_of(save@));
    }
}

/// This stretch of the category table.
pub open spec fn charms_part2_of(s: SaveFileV) -> CategoryV {
    seq![
        ("[Grubsong]"@, s.player_data.got_charm_3),
        ("[Grubberfly's Elegy]"@, s.player_data.got_charm_35),
        ("[Fragile Heart] / [Unbreakable Heart]"@, s.player_data.got_charm_23),
        ("[Fragile Greed] / [Unbreakable Greed]"@, s.player_data.got_charm_24),
        ("[Fragile Strength] / [Unbreakable Strength]"@, s.player_data.got_charm_25),
        ("[Spell Twister]"@, s.player_data.got_charm_33),
        ("[Steady Body]"@, s.player_data.got_charm_14),
        ("[Heavy Blow]"@, s.player_data.got_charm_15),
    ]
}

/// Appends this stretch of the category table.
fn charms_part2(m: &mut ChecksMap, save: &SaveFile)
    ensures
        final(m)@ == old(m)@ + charms_part2_of(save@),
{
    let pd = &save.player_data;
    m.push_entry("[Grubsong]", pd.got_charm_3);
    m.push_entry("[Grubberfly's Elegy]", pd.got_charm_35);
    m.push_entry("[Fragile Heart] / [Unbreakable Heart]", pd.got_charm_23);
    m.push_entry("[Fragile Greed] / [Unbreakable Greed]", pd.got_charm_24);
    m.push_entry("[Fragile Strength] / [Unbreakable Strength]", pd.got_charm_25);
    m.push_entry("[Spell Twister]", pd.got_charm_33);
    m.push_entry("[Steady Body]", pd.got_charm_14);
    m.push_entry("[Heavy Blow]", pd.got_charm_15);
    proof {
        assert(final(m)@ =~= old(m)@ + charms_part2_of(save@));
    }
}

/// This stretch of the category table.
pub open spec fn charms_part3_of(s: SaveFileV) -> CategoryV {
    seq![
        ("[Quick Slash]"@, s.player_data.got_charm_32),
        ("[Longnail]"@, s.player_data.got_charm_18),
        ("[Mark of Pride]"@, s.player_data.got_charm_13),
        ("[Fury of the Fallen]"@, s.player_data.got_charm_6),
        ("[Thorns of Agony]"@, s.player_data.got_charm_12),
        ("[Baldur Shell]"@, s.player_data.got_charm_5),
        ("[Flukenest]"@, s.player_data.got_charm_11),
        ("[Defender's Crest]"@, s.player_data.got_charm_10),
    ]
}

/// Appends this stretch of the category table.
fn charms_part3(m: &mut ChecksMap, save: &SaveFile)
    ensures
        final(m)@ == old(m)@ + charms_part3_of(save@),
{
    let pd = &save.player_data;
    m.push_entry("[Quick Slash]", pd.got_charm_32);
    m.push_entry("[Longnail]", pd.got_charm_18);
    m.push_entry("[Mark of Pride]", pd.got_charm_13);
    m.push_entry("[Fury of the Fallen]", pd.got_charm_6);
    m.push_entry("[Thorns of Agony]", pd.got_charm_12);
    m.push_entry("[Baldur Shell]", pd.got_charm_5);
    m.push_entry("[Flukenest]", pd.got_charm_11);
    m.push_entry("[Defender's Crest]", pd.got_charm_10);
    proof {
        assert(final(m)@ =~= old(m)@ + charms_part3_of(save@));
    }
}

/// This stretch of the category table.
pub open spec fn charms_part4_of(s: SaveFileV) -> CategoryV {
    seq![
        ("[Glowing Womb]"@, s.player_data.got_charm_22),
        ("[Quick Focus]"@, s.player_data.got_charm_7),
        ("[Deep Focus]"@, s.player_data.got_charm_34),
        ("[Lifeblood Heart]"@, s.player_data.got_charm_8),
        ("[Lifeblood Core]"@, s.player_data.got_charm_9),
        ("[Joni's Blessing]"@, s.player_data.got_charm_27),
        ("[Hiveblood]"@, s.player_data.got_charm_29),
        ("[Spore Shroom]"@, s.player_data.got_charm_17),
    ]
}

/// Appends this stretch of the category table.
fn charms_part4(m: &mut ChecksMap, save: &SaveFile)
    ensures
        final(m)@ == old(m)@ + charms_part4_of(save@),
{
    let pd = &save.player_data;
    m.push_entry("[Glowing Womb]", pd.got_charm_22);
    m.push_entry("[Quick Focus]", pd.got_charm_7);
    m.push_entry("[Deep Focus]", pd.got_charm_34);
    m.push_entry("[Lifeblood Heart]", pd.got_charm_8);
    m.push_entry("[Lifeblood Core]", pd.got_charm_9);
    m.push_entry("[Joni's Blessing]", pd.got_charm_27);
    m.push_entry("[Hiveblood]", pd.got_charm_29);
    m.push_entry("[Spore Shroom]", pd.got_charm_17);
    proof {
        assert(final(m)@ =~= old(m)@ + charms_part4_of(save@));
    }
}

/// This stretch of the category table.
pub open spec fn charms_part5_of(s: SaveFileV) -> CategoryV {
    seq![
        ("[Sharp Shadow]"@, s.player_data.got_charm_16),
        ("[Shape of Unn]"@, s.player_data.got_charm_28),
        ("[Nailmaster's Glory]"@, s.player_data.got_charm_26),
        ("[Weaversong]"@, s.player_data.got_charm_39),
        ("[Dream Wielder]"@, s.player_data.got_charm_30),
        ("[Dreamshield]"@, s.player_data.got_charm_38),
        ("[Grimmchild] / [Carefree Melody]"@, s.player_data.got_charm_40),
        ("[Kingsoul] / [Void Heart]"@, (s.player_data.got_charm_36 && s.player_data.got_king_fragment && s.player_data.got_queen_fragment)),
    ]
}

/// Appends this stretch of the category table.
fn charms_part5(m: &mut ChecksMap, save: &SaveFile)
    ensures
        final(m)@ == old(m)@ + charms_part5_of(save@),
{
    let pd = &save.player_data;
    m.push_entry("[Sharp Shadow]", pd.got_charm_16);
    m.push_entry("[Shape of Unn]", pd.got_charm_28);
    m.push_entry("[Nailmaster's Glory]", pd.got_charm_26);
    m.push_entry("[Weaversong]", pd.got_charm_39);
    m.push_entry("[Dream Wielder]", pd.got_charm_30);
    m.push_entry("[Dreamshield]", pd.got_charm_38);
    m.push_entry("[Grimmchild] / [Carefree Melody]", pd.got_charm_40);
    m.push_entry("[Kingsoul] / [Void Heart]", (pd.got_charm_36 && pd.got_king_fragment && pd.got_queen_fragment));
    proof {
        assert(final(m)@ =~= old(m)@ + charms_part5_of(save@));
    }
}

/// The fixed (label, predicate) table of this category, stretch by
/// stretch in its declared order.
pub open spec fn charms_of(s: SaveFileV) -> CategoryV {
    charms_part1_of(s) + charms_part2_of(s) + charms_part3_of(s) + charms_part4_of(s) + charms_part5_of(s)
}

/// Builds this category in its fixed declared order.
fn charms_checks(save: &SaveFile) -> (r: ChecksMap)
    ensures
        r@ == charms_of(save@),
{
    let mut m = ChecksMap::empty();
    charms_part1(&mut m, save);
    charms_part2(&mut m, save);
    charms_part3(&mut m, save);
    charms_part4(&mut m, save);
    charms_part5(&mut m, save);
    proof {
        assert(Seq::<(Seq<char>, bool)>::empty() + charms_part1_of(save@) =~= charms_part1_of(save@));
    }
    m
}

/// This stretch of the category table.
pub open spec fn mask_shards_part1_of(s: SaveFileV) -> CategoryV {
    seq![
        ("[Sly] #1"@, s.player_data.sly_shell_frag1),
        ("[Sly] #2"@, s.player_data.sly_shell_frag2),
        ("[Sly] #3"@, s.player_data.sly_shell_frag3),
        ("[Sly] #4"@, s.player_data.sly_shell_frag4),
        ("[Forgotten Crossroads] [Brooding Mawlek]"@, scene_on(s.scenes, "Crossroads_09"@, "Heart Piece"@)),
        ("[Grubfather]"@, scene_on(s.scenes, "Crossroads_38"@, "Heart Piece"@)),
        ("[Forgotten Crossroads] [Goams]"@, scene_on(s.scenes, "Crossroads_13"@, "Heart Piece"@)),
        ("[Queen's Station]"@, scene_on(s.scenes, "Fungus2_01"@, "Heart Piece"@)),
    ]
}

/// Appends this stretch of the category table.
fn mask_shards_part1(m: &mut ChecksMap, save: &SaveFile)
    ensures
        final(m)@ == old(m)@ + mask_shards_part1_of(save@),
{
    let pd = &save.player_data;
    m.push_entry("[Sly] #1", pd.sly_shell_frag1);
    m.push_entry("[Sly] #2", pd.sly_shell_frag2);
    m.push_entry("[Sly] #3", pd.sly_shell_frag3);
    m.push_entry("[Sly] #4", pd.sly_shell_frag4);
    m.push_entry("[Forgotten Crossroads] [Brooding Mawlek]", scene_activated(&save.scene_data, "Crossroads_09", "Heart Piece"));
    m.push_entry("[Grubfather]", scene_activated(&save.scene_data, "Crossroads_38", "Heart Piece"));
    m.push_entry("[Forgotten Crossroads] [Goams]", scene_activated(&save.scene_data, "Crossroads_13", "Heart Piece"));
    m.push_entry("[Queen's Station]", scene_activated(&save.scene_data, "Fungus2_01", "Heart Piece"));
    proof {
        assert(final(m)@ =~= old(m)@ + mask_shards_part1_of(save@));
    }
}

/// This stretch of the category table.
pub open spec fn mask_shards_part2_of(s: SaveFileV) -> CategoryV {
    seq![
        ("[Bretta]'s house"@, scene_on(s.scenes, "Room_Bretta"@, "Heart Piece"@)),
        ("[Stone Sanctuary]"@, scene_on(s.scenes, "Fungus1_36"@, "Heart Piece"@)),
        ("[Royal Waterways]"@, scene_on(s.scenes, "Waterways_04b"@, "Heart Piece"@)),
        ("[Deepnest] from [Fungal Core]"@, scene_on(s.scenes, "Fungus2_25"@, "Heart Piece"@)),
        ("[Enraged Guardian]"@, scene_on(s.scenes, "Mines_32"@, "Heart Piece"@)),
        ("[The Hive]"@, scene_on(s.scenes, "Hive_04"@, "Heart Piece"@)),
        ("[Seer]"@, s.player_data.dream_reward7),
        ("[Grey Mourner]"@, scene_on(s.scenes, "Room_Mansion"@, "Heart Piece"@)),
    ]
}

/// Appends this stretch of the category table.
fn mask_shards_part2(m: &mut ChecksMap, save: &SaveFile)
    ensures
        final(m)@ == old(m)@ + mask_shards_part2_of(save@),
{
    let pd = &save.player_data;
    m.push_entry("[Bretta]'s house", scene_activated(&save.scene_data, "Room_Bretta", "Heart Piece"));
    m.push_entry("[Stone Sanctuary]", scene_activated(&save.scene_data, "Fungus1_36", "Heart Piece"));
    m.push_entry("[Royal Waterways]", scene_activated(&save.scene_data, "Waterways_04b", "Heart Piece"));
    m.push_entry("[Deepnest] from [Fungal Core]", scene_activated(&save.scene_data, "Fungus2_25", "Heart Piece"));
    m.push_entry("[Enraged Guardian]", scene_activated(&save.scene_data, "Mines_32", "Heart Piece"));
    m.push_entry("[The Hive]", scene_activated(&save.scene_data, "Hive_04", "Heart Piece"));
    m.push_entry("[Seer]", pd.dream_reward7);
    m.push_entry("[Grey Mourner]", scene_activated(&save.scene_data, "Room_Mansion", "Heart Piece"));
    proof {
        assert(final(m)@ =~= old(m)@ + mask_shards_part2_of(save@));
    }
}

/// The fixed (label, predicate) table of this category, stretch by
/// stretch in its declared order.
pub open spec fn mask_shards_of(s: SaveFileV) -> CategoryV {
    mask_shards_part1_of(s) + mask_shards_part2_of(s)
}

/// Builds this category in its fixed declared order.
fn mask_shards_checks(save: &SaveFile) -> (r: ChecksMap)
    ensures
        r@ == mask_shards_of(save@),
{
    let mut m = ChecksMap::empty();
    mask_shards_part1(&mut m, save);
    mask_shards_part2(&mut m, save);
    proof {
        assert(Seq::<(Seq<char>, bool)>::empty() + mask_shards_part1_of(save@) =~= mask_shards_part1_of(save@));
    }
    m
}

/// This stretch of the category table.
pub open spec fn vessel_fragments_part1_of(s: SaveFileV) -> CategoryV {
    seq![
        ("[Sly] #1"@, s.player_data.sly_vessel_frag1),
        ("[Sly] #2"@, s.player_data.sly_vessel_frag2),
        ("[Greenpath]"@, scene_on(s.scenes, "Fungus1_13"@, "Vessel Fragment"@)),
        ("Left of the lift in [Forgotten Crossroads]"@, scene_on(s.scenes, "Crossroads_37"@, "Vessel Fragment"@)),
        ("Above [King's Station] near a lift"@, scene_on(s.scenes, "Ruins2_09"@, "Vessel Fragment"@)),
        ("[Deepnest]"@, scene_on(s.scenes, "Deepnest_38"@, "Vessel Fragment"@)),
        ("[Stag Nest]"@, s.player_data.vessel_frag_stag_nest),
        ("[Seer]"@, s.player_data.dream_reward5),
    ]
}

/// Appends this stretch of the category table.
fn vessel_fragments_part1(m: &mut ChecksMap, save: &SaveFile)
    ensures
        final(m)@ == old(m)@ + vessel_fragments_part1_of(save@),
{
    let pd = &save.player_data;
    m.push_entry("[Sly] #1", pd.sly_vessel_frag1);
    m.push_entry("[Sly] #2", pd.sly_vessel_frag2);
    m.push_entry("[Greenpath]", scene_activated(&save.scene_data, "Fungus1_13", "Vessel Fragment"));
    m.push_entry("Left of the lift in [Forgotten Crossroads]", scene_activated(&save.scene_data, "Crossroads_37", "Vessel Fragment"));
    m.push_entry("Above [King's Station] near a lift", scene_activated(&save.scene_data, "Ruins2_09", "Vessel Fragment"));
    m.push_entry("[Deepnest]", scene_activated(&save.scene_data, "Deepnest_38", "Vessel Fragment"));
    m.push_entry("[Stag Nest]", pd.vessel_frag_stag_nest);
    m.push_entry("[Seer]", pd.dream_reward5);
    proof {
        assert(final(m)@ =~= old(m)@ + vessel_fragments_part1_of(save@));
    }
}

/// This stretch of the category table.
pub open spec fn vessel_fragments_part2_of(s: SaveFileV) -> CategoryV {
    seq![
        ("[Ancient Basin] fountain"@, scene_on(s.scenes, "Abyss_04"@, "Vessel Fragment"@)),
    ]
}

/// Appends this stretch of the category table.
fn vessel_fragments_part2(m: &mut ChecksMap, save: &SaveFile)
    ensures
        final(m)@ == old(m)@ + vessel_fragments_part2_of(save@),
{
    let pd = &save.player_data;
    m.push_entry("[Ancient Basin] fountain", scene_activated(&save.scene_data, "Abyss_04", "Vessel Fragment"));
    proof {
        assert(final(m)@ =~= old(m)@ + vessel_fragments_part2_of(save@));
    }
}

/// The fixed (label, predicate) table of this category, stretch by
/// stretch in its declared order.
pub open spec fn vessel_fragments_of(s: SaveFileV) -> CategoryV {
    vessel_fragments_part1_of(s) + vessel_fragments_part2_of(s)
}

/// Builds this category in its fixed declared order.
fn vessel_fragments_checks(save: &SaveFile) -> (r: ChecksMap)
    ensures
        r@ == vessel_fragments_of(save@),
{
    let mut m = ChecksMap::empty();
    vessel_fragments_part1(&mut m, save);
    vessel_fragments_part2(&mut m, save);
    proof {
        assert(Seq::<(Seq<char>, bool)>::empty() + vessel_fragments_part1_of(save@) =~= vessel_fragments_part1_of(save@));
    }
    m
}

/// The fixed (label, predicate) table of this category.
pub open spec fn dreamers_of(s: SaveFileV) -> CategoryV {
    seq![
        ("[Herra the Beast]"@, s.player_data.lurien_defeated),
        ("[Lurien the Watcher]"@, s.player_data.monomon_defeated),
        ("[Monomon the Teacher]"@, s.player_data.hegemol_defeated),
    ]
}

/// Builds this category in its fixed declared order.
fn dreamers_checks(save: &SaveFile) -> (r: ChecksMap)
    ensures
        r@ == dreamers_of(save@),
{
    let pd = &save.player_data;
    let mut m = ChecksMap::empty();
    m.push_entry("[Herra the Beast]", pd.lurien_defeated);
    m.push_entry("[Lurien the Watcher]", pd.monomon_defeated);
    m.push_entry("[Monomon the Teacher]", pd.hegemol_defeated);
    proof {
        assert(m@ =~= dreamers_of(save@));
    }
    m
}

/// The fixed (label, predicate) table of this category.
pub open spec fn dream_warriors_of(s: SaveFileV) -> CategoryV {
    seq![
        ("[Elder Hu]"@, s.player_data.elder_hu_defeated == 2),
        ("[Galien]"@, s.player_data.galien_defeated == 2),
        ("[Gorb]"@, s.player_data.aladar_slug_defeated == 2),
        ("[Markoth]"@, s.player_data.markoth_defeated == 2),
        ("[Marmu]"@, s.player_data.mum_caterpillar_defeated == 2),
        ("[No Eyes]"@, s.player_data.no_eyes_defeated == 2),
        ("[Xero]"@, s.player_data.xero_defeated == 2),
        ("[Nightmare King Grimm] / [Banishment](Grimm Troupe (Quest))"@, (s.player_data.killed_nightmare_grimm || s.player_data.nymm_in_town)),
    ]
}

/// Builds this category in its fixed declared order.
fn dream_warriors_checks(save: &SaveFile) -> (r: ChecksMap)
    ensures
        r@ == dream_warriors_of(save@),
{
    let pd = &save.player_data;
    let mut m = ChecksMap::empty();
    m.push_entry("[Elder Hu]", pd.elder_hu_defeated == 2);
    m.push_entry("[Galien]", pd.galien_defeated == 2);
    m.push_entry("[Gorb]", pd.aladar_slug_defeated == 2);
    m.push_entry("[Markoth]", pd.markoth_defeated == 2);
    m.push_entry("[Marmu]", pd.mum_caterpillar_defeated == 2);
    m.push_entry("[No Eyes]", pd.no_eyes_defeated == 2);
    m.push_entry("[Xero]", pd.xero_defeated == 2);
    m.push_entry("[Nightmare King Grimm] / [Banishment](Grimm Troupe (Quest))", (pd.killed_nightmare_grimm || pd.nymm_in_town));
    proof {
        assert(m@ =~= dream_warriors_of(save@));
    }
    m
}

/// The fixed (label, predicate) table of this category.
pub open spec fn dream_bosses_of(s: SaveFileV) -> CategoryV {
    seq![
        ("[Failed Champion]"@, s.player_data.false_knight_dream_defeated),
        ("[Grey Prince Zote]"@, s.player_data.grey_prince_defeated),
        ("[Lost Kin]"@, s.player_data.infected_knight_dream_defeated),
        ("[White Defender]"@, s.player_data.white_defender_defeated),
        ("[Soul Tyrant]"@, s.player_data.mage_lord_dream_defeated),
    ]
}

/// Builds this category in its fixed declared order.
fn dream_bosses_checks(save: &SaveFile) -> (r: ChecksMap)
    ensures
        r@ == dream_bosses_of(save@),
{
    let pd = &save.player_data;
    let mut m = ChecksMap::empty();
    m.push_entry("[Failed Champion]", pd.false_knight_dream_defeated);
    m.push_entry("[Grey Prince Zote]", pd.grey_prince_defeated);
    m.push_entry("[Lost Kin]", pd.infected_knight_dream_defeated);
    m.push_entry("[White Defender]", pd.white_defender_defeated);
    m.push_entry("[Soul Tyrant]", pd.mage_lord_dream_defeated);
    proof {
        assert(m@ =~= dream_bosses_of(save@));
    }
    m
}

/// The fixed (label, predicate) table of this category.
pub open spec fn colosseum_of(s: SaveFileV) -> CategoryV {
    seq![
        ("[Trial of the Warrior]"@, s.player_data.colosseum_bronze_completed),
        ("[Trial of the Conqueror]"@, s.player_data.colosseum_silver_completed),
        ("[Trial of the Fool]"@, s.player_data.colosseum_gold_completed),
    ]
}

/// Builds this category in its fixed declared order.
fn colosseum_checks(save: &SaveFile) -> (r: ChecksMap)
    ensures
        r@ == colosseum_of(save@),
{
    let pd = &save.player_data;
    let mut m = ChecksMap::empty();
    m.push_entry("[Trial of the Warrior]", pd.colosseum_bronze_completed);
    m.push_entry("[Trial of the Conqueror]", pd.colosseum_silver_completed);
    m.push_entry("[Trial of the Fool]", pd.colosseum_gold_completed);
    proof {
        assert(m@ =~= colosseum_of(save@));
    }
    m
}

/// The fixed (label, predicate) table of this category.
pub open spec fn godhome_of(s: SaveFileV) -> CategoryV {
    seq![
        ("[Godtuner]"@, s.player_data.has_godfinder),
        ("[Pantheon of the Master]"@, s.player_data.boss_door_state_tier1.completed),
        ("[Pantheon of the Artist]"@, s.player_data.boss_door_state_tier2.completed),
        ("[Pantheon of the Sage]"@, s.player_data.boss_door_state_tier3.completed),
        ("[Pantheon of the Knight]"@, s.player_data.boss_door_state_tier4.completed),
        ("[Pantheon of the Hallownest] (no percent)"@, s.player_data.boss_door_state_tier5.completed),
    ]
}

/// Builds this category in its fixed declared order.
fn godhome_checks(save: &SaveFile) -> (r: ChecksMap)
    ensures
        r@ == godhome_of(save@),
{
    let pd = &save.player_data;
    let mut m = ChecksMap::empty();
    m.push_entry("[Godtuner]", pd.has_godfinder);
    m.push_entry("[Pantheon of the Master]", pd.boss_door_state_tier1.completed);
    m.push_entry("[Pantheon of the Artist]", pd.boss_door_state_tier2.completed);
    m.push_entry("[Pantheon of the Sage]", pd.boss_door_state_tier3.completed);
    m.push_entry("[Pantheon of the Knight]", pd.boss_door_state_tier4.completed);
    m.push_entry("[Pantheon of the Hallownest] (no percent)", pd.boss_door_state_tier5.completed);
    proof {
        assert(m@ =~= godhome_of(save@));
    }
    m
}

/// This stretch of the category table.
pub open spec fn grubs_part1_of(s: SaveFileV) -> CategoryV {
    seq![
        ("[Forgotten Crossroads] behind [Husk Guard]"@, scene_on(s.scenes, "Crossroads_48"@, "Grub Bottle"@)),
        ("[Forgotten Crossroads] [Fog Canyon] entrance"@, scene_on(s.scenes, "Crossroads_35"@, "Grub Bottle"@)),
        ("[Forgotten Crossroads] breakable wall"@, scene_on(s.scenes, "Crossroads_03"@, "Grub Bottle"@)),
        ("[Forgotten Crossroads] [Pogo](Nail#Nail-bouncing)"@, scene_on(s.scenes, "Crossroads_31"@, "Grub Bottle"@)),
        ("[Forgotten Crossroads] on a ledge"@, scene_on(s.scenes, "Crossroads_05"@, "Grub Bottle"@)),
        ("[Greenpath] with a moss block shortcut"@, scene_on(s.scenes, "Fungus1_06"@, "Grub Bottle"@)),
        ("[Greenpath] near acid"@, scene_on(s.scenes, "Fungus1_07"@, "Grub Bottle"@)),
        ("[Greenpath] behind [Moss Knight]"@, scene_on(s.scenes, "Fungus1_21"@, "Grub Bottle"@)),
    ]
}

/// Appends this stretch of the category table.
fn grubs_part1(m: &mut ChecksMap, save: &SaveFile)
    ensures
        final(m)@ == old(m)@ + grubs_part1_of(save@),
{
    let pd = &save.player_data;
    m.push_entry("[Forgotten Crossroads] behind [Husk Guard]", scene_activated(&save.scene_data, "Crossroads_48", "Grub Bottle"));
    m.push_entry("[Forgotten Crossroads] [Fog Canyon] entrance", scene_activated(&save.scene_data, "Crossroads_35", "Grub Bottle"));
    m.push_entry("[Forgotten Crossroads] breakable wall", scene_activated(&save.scene_data, "Crossroads_03", "Grub Bottle"));
    m.push_entry("[Forgotten Crossroads] [Pogo](Nail#Nail-bouncing)", scene_activated(&save.scene_data, "Crossroads_31", "Grub Bottle"));
    m.push_entry("[Forgotten Crossroads] on a ledge", scene_activated(&save.scene_data, "Crossroads_05", "Grub Bottle"));
    m.push_entry("[Greenpath] with a moss block shortcut", scene_activated(&save.scene_data, "Fungus1_06", "Grub Bottle"));
    m.push_entry("[Greenpath] near acid", scene_activated(&save.scene_data, "Fungus1_07", "Grub Bottle"));
    m.push_entry("[Greenpath] behind [Moss Knight]", scene_activated(&save.scene_data, "Fungus1_21", "Grub Bottle"));
    proof {
        assert(final(m)@ =~= old(m)@ + grubs_part1_of(save@));
    }
}

/// This stretch of the category table.
pub open spec fn grubs_part2_of(s: SaveFileV) -> CategoryV {
    seq![
        ("[Greenpath] in the middle of a [Durandoo] room"@, scene_on(s.scenes, "Fungus1_13"@, "Grub Bottle"@)),
        ("[Fungal Wastes] behind a line of [Fungling]s"@, scene_on(s.scenes, "Fungus2_18"@, "Grub Bottle"@)),
        ("[Fungal Wastes] near [Spore Shroom]"@, scene_on(s.scenes, "Fungus2_20"@, "Grub Bottle"@)),
        ("[City of Tears] on a ledge"@, scene_on(s.scenes, "Ruins1_05"@, "Grub Bottle (1)"@)),
        ("[City of Tears] behind [Great Husk Sentry]"@, scene_on(s.scenes, "Ruins_House_01"@, "Grub Bottle"@)),
        ("[City of Tears] in the [Desolate Dive] dive"@, scene_on(s.scenes, "Ruins1_32"@, "Grub Bottle"@)),
        ("[City of Tears] under the entrance to the [Tower of Love]"@, scene_on(s.scenes, "Ruins2_07"@, "Grub Bottle"@)),
        ("[City of Tears] room leading to [Watcher Knight]"@, scene_on(s.scenes, "Ruins2_03"@, "Grub Bottle"@)),
    ]
}

/// Appends this stretch of the category table.
fn grubs_part2(m: &mut ChecksMap, save: &SaveFile)
    ensures
        final(m)@ == old(m)@ + grubs_part2_of(save@),
{
    let pd = &save.player_data;
    m.push_entry("[Greenpath] in the middle of a [Durandoo] room", scene_activated(&save.scene_data, "Fungus1_13", "Grub Bottle"));
    m.push_entry("[Fungal Wastes] behind a line of [Fungling]s", scene_activated(&save.scene_data, "Fungus2_18", "Grub Bottle"));
    m.push_entry("[Fungal Wastes] near [Spore Shroom]", scene_activated(&save.scene_data, "Fungus2_20", "Grub Bottle"));
    m.push_entry("[City of Tears] on a ledge", scene_activated(&save.scene_data, "Ruins1_05", "Grub Bottle (1)"));
    m.push_entry("[City of Tears] behind [Great Husk Sentry]", scene_activated(&save.scene_data, "Ruins_House_01", "Grub Bottle"));
    m.push_entry("[City of Tears] in the [Desolate Dive] dive", scene_activated(&save.scene_data, "Ruins1_32", "Grub Bottle"));
    m.push_entry("[City of Tears] under the entrance to the [Tower of Love]", scene_activated(&save.scene_data, "Ruins2_07", "Grub Bottle"));
    m.push_entry("[City of Tears] room leading to [Watcher Knight]", scene_activated(&save.scene_data, "Ruins2_03", "Grub Bottle"));
    proof {
        assert(final(m)@ =~= old(m)@ + grubs_part2_of(save@));
    }
}

/// This stretch of the category table.
pub open spec fn grubs_part3_of(s: SaveFileV) -> CategoryV {
    seq![
        ("[Crystal Peak] from [Dirtmouth]"@, scene_on(s.scenes, "Mines_16"@, "Grub Bottle"@)),
        ("[Crystal Peak] behind presses"@, scene_on(s.scenes, "Mines_19"@, "Grub Bottle"@)),
        ("[Crystal Peak] near [Crystal Heart]"@, scene_on(s.scenes, "Mines_31"@, "Grub Bottle"@)),
        ("[Crystal Peak] on the way to [Hallownest's Crown]"@, scene_on(s.scenes, "Mines_24"@, "Grub Bottle"@)),
        ("[Crystal Peak] vertical conveyor belts lever"@, scene_on(s.scenes, "Mines_03"@, "Grub Bottle"@)),
        ("[Crystal Peak] from the top room with presses"@, scene_on(s.scenes, "Mines_04"@, "Grub Bottle"@)),
        ("[Crystal Peak] in the [Crystallized Mound]"@, scene_on(s.scenes, "Mines_35"@, "Grub Bottle"@)),
        ("[Resting Grounds] [Crypts](Resting Grounds#Crypts)"@, scene_on(s.scenes, "RestingGrounds_10"@, "Grub Bottle"@)),
    ]
}

/// Appends this stretch of the category table.
fn grubs_part3(m: &mut ChecksMap, save: &SaveFile)
    ensures
        final(m)@ == old(m)@ + grubs_part3_of(save@),
{
    let pd = &save.player_data;
    m.push_entry("[Crystal Peak] from [Dirtmouth]", scene_activated(&save.scene_data, "Mines_16", "Grub Bottle"));
    m.push_entry("[Crystal Peak] behind presses", scene_activated(&save.scene_data, "Mines_19", "Grub Bottle"));
    m.push_entry("[Crystal Peak] near [Crystal Heart]", scene_activated(&save.scene_data, "Mines_31", "Grub Bottle"));
    m.push_entry("[Crystal Peak] on the way to [Hallownest's Crown]", scene_activated(&save.scene_data, "Mines_24", "Grub Bottle"));
    m.push_entry("[Crystal Peak] vertical conveyor belts lever", scene_activated(&save.scene_data, "Mines_03", "Grub Bottle"));
    m.push_entry("[Crystal Peak] from the top room with presses", scene_activated(&save.scene_data, "Mines_04", "Grub Bottle"));
    m.push_entry("[Crystal Peak] in the [Crystallized Mound]", scene_activated(&save.scene_data, "Mines_35", "Grub Bottle"));
    m.push_entry("[Resting Grounds] [Crypts](Resting Grounds#Crypts)", scene_activated(&save.scene_data, "RestingGrounds_10", "Grub Bottle"));
    proof {
        assert(final(m)@ =~= old(m)@ + grubs_part3_of(save@));
    }
}

/// This stretch of the category table.
pub open spec fn grubs_part4_of(s: SaveFileV) -> CategoryV {
    seq![
        ("[Royal Waterways] behind a wall near water"@, scene_on(s.scenes, "Waterways_04"@, "Grub Bottle"@)),
        ("[Royal Waterways] from the [Kingdom's Edge]"@, scene_on(s.scenes, "Waterways_14"@, "Grub Bottle"@)),
        ("[Royal Waterways] above [Isma's Tear]"@, scene_on(s.scenes, "Waterways_13"@, "Grub Bottle"@)),
        ("[Howling Cliffs]"@, scene_on(s.scenes, "Fungus1_28"@, "Grub Bottle"@)),
        ("[Kingdom's Edge] under [Oro]'s hut"@, scene_on(s.scenes, "Deepnest_East_14"@, "Grub Bottle"@)),
        ("[Kingdom's Edge] behind a [Primal Aspid]"@, scene_on(s.scenes, "Deepnest_East_11"@, "Grub Bottle"@)),
        ("[Fog Canyon]"@, scene_on(s.scenes, "Fungus3_47"@, "Grub Bottle"@)),
        ("[Queen's Gardens] under the [Stag] station"@, scene_on(s.scenes, "Fungus3_10"@, "Grub Bottle"@)),
    ]
}

/// Appends this stretch of the category table.
fn grubs_part4(m: &mut ChecksMap, save: &SaveFile)
    ensures
        final(m)@ == old(m)@ + grubs_part4_of(save@),
{
    let pd = &save.player_data;
    m.push_entry("[Royal Waterways] behind a wall near water", scene_activated(&save.scene_data, "Waterways_04", "Grub Bottle"));
    m.push_entry("[Royal Waterways] from the [Kingdom's Edge]", scene_activated(&save.scene_data, "Waterways_14", "Grub Bottle"));
    m.push_entry("[Royal Waterways] above [Isma's Tear]", scene_activated(&save.scene_data, "Waterways_13", "Grub Bottle"));
    m.push_entry("[Howling Cliffs]", scene_activated(&save.scene_data, "Fungus1_28", "Grub Bottle"));
    m.push_entry("[Kingdom's Edge] under [Oro]'s hut", scene_activated(&save.scene_data, "Deepnest_East_14", "Grub Bottle"));
    m.push_entry("[Kingdom's Edge] behind a [Primal Aspid]", scene_activated(&save.scene_data, "Deepnest_East_11", "Grub Bottle"));
    m.push_entry("[Fog Canyon]", scene_activated(&save.scene_data, "Fungus3_47", "Grub Bottle"));
    m.push_entry("[Queen's Gardens] under the [Stag] station", scene_activated(&save.scene_data, "Fungus3_10", "Grub Bottle"));
    proof {
        assert(final(m)@ =~= old(m)@ + grubs_part4_of(save@));
    }
}

/// This stretch of the category table.
pub open spec fn grubs_part5_of(s: SaveFileV) -> CategoryV {
    seq![
        ("[Queen's Gardens] above the spiky roof"@, scene_on(s.scenes, "Fungus3_22"@, "Grub Bottle"@)),
        ("[Queen's Gardens] near [White Lady]"@, scene_on(s.scenes, "Fungus3_48"@, "Grub Bottle"@)),
        ("[Deepnest] among [Grub Mimic]s"@, scene_on(s.scenes, "Deepnest_36"@, "Grub Bottle"@)),
        ("[Deepnest] above the spike pit"@, scene_on(s.scenes, "Deepnest_03"@, "Grub Bottle"@)),
        ("[Deepnest] on the way to [Nosk]"@, scene_on(s.scenes, "Deepnest_31"@, "Grub Bottle"@)),
        ("[Deepnest] near the [Weavers' Den]"@, scene_on(s.scenes, "Deepnest_39"@, "Grub Bottle"@)),
        ("[Deepnest] in the [Beast's Den]"@, scene_on(s.scenes, "Deepnest_Spider_Town"@, "Grub Bottle"@)),
        ("[Ancient Basin] above [Broken Vessel]"@, scene_on(s.scenes, "Abyss_19"@, "Grub Bottle"@)),
    ]
}

/// Appends this stretch of the category table.
fn grubs_part5(m: &mut ChecksMap, save: &SaveFile)
    ensures
        final(m)@ == old(m)@ + grubs_part5_of(save@),
{
    let pd = &save.player_data;
    m.push_entry("[Queen's Gardens] above the spiky roof", scene_activated(&save.scene_data, "Fungus3_22", "Grub Bottle"));
    m.push_entry("[Queen's Gardens] near [White Lady]", scene_activated(&save.scene_data, "Fungus3_48", "Grub Bottle"));
    m.push_entry("[Deepnest] among [Grub Mimic]s", scene_activated(&save.scene_data, "Deepnest_36", "Grub Bottle"));
    m.push_entry("[Deepnest] above the spike pit", scene_activated(&save.scene_data, "Deepnest_03", "Grub Bottle"));
    m.push_entry("[Deepnest] on the way to [Nosk]", scene_activated(&save.scene_data, "Deepnest_31", "Grub Bottle"));
    m.push_entry("[Deepnest] near the [Weavers' Den]", scene_activated(&save.scene_data, "Deepnest_39", "Grub Bottle"));
    m.push_entry("[Deepnest] in the [Beast's Den]", scene_activated(&save.scene_data, "Deepnest_Spider_Town", "Grub Bottle"));
    m.push_entry("[Ancient Basin] above [Broken Vessel]", scene_activated(&save.scene_data, "Abyss_19", "Grub Bottle"));
    proof {
        assert(final(m)@ =~= old(m)@ + grubs_part5_of(save@));
    }
}

/// This stretch of the category table.
pub open spec fn grubs_part6_of(s: SaveFileV) -> CategoryV {
    seq![
        ("[Ancient Basin] under [Cloth]"@, scene_on(s.scenes, "Abyss_17"@, "Grub Bottle"@)),
        ("[The Hive] isolated room"@, scene_on(s.scenes, "Hive_03"@, "Grub Bottle"@)),
        ("[The Hive]"@, scene_on(s.scenes, "Hive_04"@, "Grub Bottle"@)),
        ("[Tower of Love] #1"@, scene_on(s.scenes, "Ruins2_11"@, "Grub Bottle"@)),
        ("[Tower of Love] #2"@, scene_on(s.scenes, "Ruins2_11"@, "Grub Bottle"@)),
        ("[Tower of Love] #3"@, scene_on(s.scenes, "Ruins2_11"@, "Grub Bottle"@)),
    ]
}

/// Appends this stretch of the category table.
fn grubs_part6(m: &mut ChecksMap, save: &SaveFile)
    ensures
        final(m)@ == old(m)@ + grubs_part6_of(save@),
{
    let pd = &save.player_data;
    m.push_entry("[Ancient Basin] under [Cloth]", scene_activated(&save.scene_data, "Abyss_17", "Grub Bottle"));
    m.push_entry("[The Hive] isolated room", scene_activated(&save.scene_data, "Hive_03", "Grub Bottle"));
    m.push_entry("[The Hive]", scene_activated(&save.scene_data, "Hive_04", "Grub Bottle"));
    m.push_entry("[Tower of Love] #1", scene_activated(&save.scene_data, "Ruins2_11", "Grub Bottle"));
    m.push_entry("[Tower of Love] #2", scene_activated(&save.scene_data, "Ruins2_11", "Grub Bottle"));
    m.push_entry("[Tower of Love] #3", scene_activated(&save.scene_data, "Ruins2_11", "Grub Bottle"));
    proof {
        assert(final(m)@ =~= old(m)@ + grubs_part6_of(save@));
    }
}

/// The fixed (label, predicate) table of this category, stretch by
/// stretch in its declared order.
pub open spec fn grubs_of(s: SaveFileV) -> CategoryV {
    grubs_part1_of(s) + grubs_part2_of(s) + grubs_part3_of(s) + grubs_part4_of(s) + grubs_part5_of(s) + grubs_part6_of(s)
}

/// Builds this category in its fixed declared order.
fn grubs_checks(save: &SaveFile) -> (r: ChecksMap)
    ensures
        r@ == grubs_of(save@),
{
    let mut m = ChecksMap::empty();
    grubs_part1(&mut m, save);
    grubs_part2(&mut m, save);
    grubs_part3(&mut m, save);
    grubs_part4(&mut m, save);
    grubs_part5(&mut m, save);
    grubs_part6(&mut m, save);
    proof {
        assert(Seq::<(Seq<char>, bool)>::empty() + grubs_part1_of(save@) =~= grubs_part1_of(save@));
    }
    m
}

/// This stretch of the category table.
pub open spec fn items_part1_of(s: SaveFileV) -> CategoryV {
    seq![
        ("[SIMPLE_KEY] [Simple Key] from [Sly]"@, s.player_data.sly_simple_key),
        ("[SIMPLE_KEY] [Simple Key] near [City Storerooms]"@, scene_on(s.scenes, "Ruins1_17"@, "Shiny Item"@)),
        ("[SIMPLE_KEY] [Simple Key] in the [Ancient Basin]"@, scene_on(s.scenes, "Abyss_20"@, "Shiny Item Stand"@)),
        ("[SIMPLE_KEY] [Simple Key] behind [Pale Lurker]"@, s.player_data.got_lurker_key),
        ("[ELEGANT_KEY] [Elegant Key]"@, s.player_data.has_white_key),
        ("[LOVE_KEY] [Love Key]"@, (s.player_data.has_love_key || s.player_data.opened_love_door)),
        ("[SHOPKEEPER'S_KEY] [Shopkeeper's Key]"@, (s.player_data.has_slykey || s.player_data.gave_slykey)),
        ("[TRAM_PASS] [Tram Pass]"@, s.player_data.has_tram_pass),
    ]
}

/// Appends this stretch of the category table.
fn items_part1(m: &mut ChecksMap, save: &SaveFile)
    ensures
        final(m)@ == old(m)@ + items_part1_of(save@),
{
    let pd = &save.player_data;
    m.push_entry("[SIMPLE_KEY] [Simple Key] from [Sly]", pd.sly_simple_key);
    m.push_entry("[SIMPLE_KEY] [Simple Key] near [City Storerooms]", scene_activated(&save.scene_data, "Ruins1_17", "Shiny Item"));
    m.push_entry("[SIMPLE_KEY] [Simple Key] in the [Ancient Basin]", scene_activated(&save.scene_data, "Abyss_20", "Shiny Item Stand"));
    m.push_entry("[SIMPLE_KEY] [Simple Key] behind [Pale Lurker]", pd.got_lurker_key);
    m.push_entry("[ELEGANT_KEY] [Elegant Key]", pd.has_white_key);
    m.push_entry("[LOVE_KEY] [Love Key]", (pd.has_love_key || pd.opened_love_door));
    m.push_entry("[SHOPKEEPER'S_KEY] [Shopkeeper's Key]", (pd.has_slykey || pd.gave_slykey));
    m.push_entry("[TRAM_PASS] [Tram Pass]", pd.has_tram_pass);
    proof {
        assert(final(m)@ =~= old(m)@ + items_part1_of(save@));
    }
}

/// This stretch of the category table.
pub open spec fn items_part2_of(s: SaveFileV) -> CategoryV {
    seq![
        ("[Lumafly Lantern]"@, s.player_data.has_lantern),
        ("[Delicate Flower]"@, s.player_data.xun_flower_given),
        ("[PALE_ORE] [Pale Ore] in [Ancient Basin] below [Cloth]"@, scene_on(s.scenes, "Abyss_17"@, "Battle Scene Ore"@)),
        ("[PALE_ORE] [Pale Ore] awarded by the [Seer]"@, s.player_data.dream_reward3),
        ("[PALE_ORE] [Pale Ore] on the [Hallownest's Crown]"@, scene_on(s.scenes, "Mines_34"@, "Shiny Item Stand"@)),
        ("[PALE_ORE] [Pale Ore] behind [Nosk]s lair"@, scene_on(s.scenes, "Deepnest_32"@, "Shiny Item Stand"@)),
        ("[PALE_ORE] [Pale Ore] awarded by [Grubfather]"@, scene_on(s.scenes, "Crossroads_38"@, "Shiny Item Ore"@)),
        ("[PALE_ORE] [Pale Ore] reward in [Trial of the Conqueror]"@, scene_on(s.scenes, "Room_Colosseum_Silver"@, "Shiny Item"@)),
    ]
}

/// Appends this stretch of the category table.
fn items_part2(m: &mut ChecksMap, save: &SaveFile)
    ensures
        final(m)@ == old(m)@ + items_part2_of(save@),
{
    let pd = &save.player_data;
    m.push_entry("[Lumafly Lantern]", pd.has_lantern);
    m.push_entry("[Delicate Flower]", pd.xun_flower_given);
    m.push_entry("[PALE_ORE] [Pale Ore] in [Ancient Basin] below [Cloth]", scene_activated(&save.scene_data, "Abyss_17", "Battle Scene Ore"));
    m.push_entry("[PALE_ORE] [Pale Ore] awarded by the [Seer]", pd.dream_reward3);
    m.push_entry("[PALE_ORE] [Pale Ore] on the [Hallownest's Crown]", scene_activated(&save.scene_data, "Mines_34", "Shiny Item Stand"));
    m.push_entry("[PALE_ORE] [Pale Ore] behind [Nosk]s lair", scene_activated(&save.scene_data, "Deepnest_32", "Shiny Item Stand"));
    m.push_entry("[PALE_ORE] [Pale Ore] awarded by [Grubfather]", scene_activated(&save.scene_data, "Crossroads_38", "Shiny Item Ore"));
    m.push_entry("[PALE_ORE] [Pale Ore] reward in [Trial of the Conqueror]", scene_activated(&save.scene_data, "Room_Colosseum_Silver", "Shiny Item"));
    proof {
        assert(final(m)@ =~= old(m)@ + items_part2_of(save@));
    }
}

/// This stretch of the category table.
pub open spec fn items_part3_of(s: SaveFileV) -> CategoryV {
    seq![
        ("[CHARM_NOTCH] [Charm Notch] from [Salubra] #1"@, s.player_data.salubra_notch1),
        ("[CHARM_NOTCH] [Charm Notch] from [Salubra] #2"@, s.player_data.salubra_notch2),
        ("[CHARM_NOTCH] [Charm Notch] from [Salubra] #3"@, s.player_data.salubra_notch3),
        ("[CHARM_NOTCH] [Charm Notch] from [Salubra] #4"@, s.player_data.salubra_notch4),
        ("[CHARM_NOTCH] [Charm Notch] in [Fog Canyon]"@, s.player_data.notch_fog_canyon),
        ("[CHARM_NOTCH] [Charm Notch] in [Fungal Wastes]"@, s.player_data.notch_shroom_ogres),
        ("[CHARM_NOTCH] [Charm Notch] from [Colosseum of Fools]"@, scene_on(s.scenes, "Room_Colosseum_Bronze"@, "Shiny Item"@)),
        ("[CHARM_NOTCH] [Charm Notch] from [Grimm]"@, s.player_data.got_grimm_notch),
    ]
}

/// Appends this stretch of the category table.
fn items_part3(m: &mut ChecksMap, save: &SaveFile)
    ensures
        final(m)@ == old(m)@ + items_part3_of(save@),
{
    let pd = &save.player_data;
    m.push_entry("[CHARM_NOTCH] [Charm Notch] from [Salubra] #1", pd.salubra_notch1);
    m.push_entry("[CHARM_NOTCH] [Charm Notch] from [Salubra] #2", pd.salubra_notch2);
    m.push_entry("[CHARM_NOTCH] [Charm Notch] from [Salubra] #3", pd.salubra_notch3);
    m.push_entry("[CHARM_NOTCH] [Charm Notch] from [Salubra] #4", pd.salubra_notch4);
    m.push_entry("[CHARM_NOTCH] [Charm Notch] in [Fog Canyon]", pd.notch_fog_canyon);
    m.push_entry("[CHARM_NOTCH] [Charm Notch] in [Fungal Wastes]", pd.notch_shroom_ogres);
    m.push_entry("[CHARM_NOTCH] [Charm Notch] from [Colosseum of Fools]", scene_activated(&save.scene_data, "Room_Colosseum_Bronze", "Shiny Item"));
    m.push_entry("[CHARM_NOTCH] [Charm Notch] from [Grimm]", pd.got_grimm_notch);
    proof {
        assert(final(m)@ =~= old(m)@ + items_part3_of(save@));
    }
}

/// The fixed (label, predicate) table of this category, stretch by
/// stretch in its declared order.
pub open spec fn items_of(s: SaveFileV) -> CategoryV {
    items_part1_of(s) + items_part2_of(s) + items_part3_of(s)
}

/// Builds this category in its fixed declared order.
fn items_checks(save: &SaveFile) -> (r: ChecksMap)
    ensures
        r@ == items_of(save@),
{
    let mut m = ChecksMap::empty();
    items_part1(&mut m, save);
    items_part2(&mut m, save);
    items_part3(&mut m, save);
    proof {
        assert(Seq::<(Seq<char>, bool)>::empty() + items_part1_of(save@) =~= items_part1_of(save@));
    }
    m
}

/// This stretch of the category table.
pub open spec fn relics_part1_of(s: SaveFileV) -> CategoryV {
    seq![
        ("[WANDERER'S_JOURNAL] [Wanderer's Journal] in [Greenpath] near a [Stag Station]"@, scene_on(s.scenes, "Fungus1_22"@, "Shiny Item"@)),
        ("[WANDERER'S_JOURNAL] [Wanderer's Journal] in [Greenpath] near [Fog Canyon] entrance"@, scene_on(s.scenes, "Fungus1_11"@, "Shiny Item"@)),
        ("[WANDERER'S_JOURNAL] [Wanderer's Journal] in [Fungal Wastes] near [Shrumal Ogre]s"@, scene_on(s.scenes, "Fungus2_04"@, "Shiny Item"@)),
        ("[WANDERER'S_JOURNAL] [Wanderer's Journal] north of the [Mantis Village]"@, scene_on(s.scenes, "Fungus2_17"@, "Shiny Item"@)),
        ("[WANDERER'S_JOURNAL] [Wanderer's Journal] in [City Storerooms]"@, scene_on(s.scenes, "Ruins1_28"@, "Shiny Item"@)),
        ("[WANDERER'S_JOURNAL] [Wanderer's Journal] north of [King's Station]"@, scene_on(s.scenes, "Deepnest_East_07"@, "Shiny Item"@)),
        ("[WANDERER'S_JOURNAL] [Wanderer's Journal] in [Pleasure House]"@, scene_on(s.scenes, "Ruins_Elevator"@, "Shiny Item"@)),
        ("[WANDERER'S_JOURNAL] [Wanderer's Journal] in [Howling Cliffs]"@, scene_on(s.scenes, "Cliffs_01"@, "Shiny Item (1)"@)),
    ]
}

/// Appends this stretch of the category table.
fn relics_part1(m: &mut ChecksMap, save: &SaveFile)
    ensures
        final(m)@ == old(m)@ + relics_part1_of(save@),
{
    let pd = &save.player_data;
    m.push_entry("[WANDERER'S_JOURNAL] [Wanderer's Journal] in [Greenpath] near a [Stag Station]", scene_activated(&save.scene_data, "Fungus1_22", "Shiny Item"));
    m.push_entry("[WANDERER'S_JOURNAL] [Wanderer's Journal] in [Greenpath] near [Fog Canyon] entrance", scene_activated(&save.scene_data, "Fungus1_11", "Shiny Item"));
    m.push_entry("[WANDERER'S_JOURNAL] [Wanderer's Journal] in [Fungal Wastes] near [Shrumal Ogre]s", scene_activated(&save.scene_data, "Fungus2_04", "Shiny Item"));
    m.push_entry("[WANDERER'S_JOURNAL] [Wanderer's Journal] north of the [Mantis Village]", scene_activated(&save.scene_data, "Fungus2_17", "Shiny Item"));
    m.push_entry("[WANDERER'S_JOURNAL] [Wanderer's Journal] in [City Storerooms]", scene_activated(&save.scene_data, "Ruins1_28", "Shiny Item"));
    m.push_entry("[WANDERER'S_JOURNAL] [Wanderer's Journal] north of [King's Station]", scene_activated(&save.scene_data, "Deepnest_East_07", "Shiny Item"));
    m.push_entry("[WANDERER'S_JOURNAL] [Wanderer's Journal] in [Pleasure House]", scene_activated(&save.scene_data, "Ruins_Elevator", "Shiny Item"));
    m.push_entry("[WANDERER'S_JOURNAL] [Wanderer's Journal] in [Howling Cliffs]", scene_activated(&save.scene_data, "Cliffs_01", "Shiny Item (1)"));
    proof {
        assert(final(m)@ =~= old(m)@ + relics_part1_of(save@));
    }
}

/// This stretch of the category table.
pub open spec fn relics_part2_of(s: SaveFileV) -> CategoryV {
    seq![
        ("[WANDERER'S_JOURNAL] [Wanderer's Journal] in [Crystal Peak]"@, scene_on(s.scenes, "Mines_20"@, "Shiny Item (1)"@)),
        ("[WANDERER'S_JOURNAL] [Wanderer's Journal] in [Crypts](Resting Grounds#Crypts)"@, scene_on(s.scenes, "RestingGrounds_10"@, "Shiny Item"@)),
        ("[WANDERER'S_JOURNAL] [Wanderer's Journal] in [Royal Waterways]"@, scene_on(s.scenes, "Abyss_02"@, "Shiny Item"@)),
        ("[WANDERER'S_JOURNAL] [Wanderer's Journal] near [City of Tears] entrance"@, scene_on(s.scenes, "Ruins2_05"@, "Shiny Item"@)),
        ("[WANDERER'S_JOURNAL] [Wanderer's Journal] next to the [Cast-Off Shell] [Bench]"@, scene_on(s.scenes, "Deepnest_East_13"@, "Shiny Item"@)),
        ("[WANDERER'S_JOURNAL] [Wanderer's Journal] near [Markoth]"@, scene_on(s.scenes, "Deepnest_East_18"@, "Shiny Item"@)),
        ("[HALLOWNEST_SEAL] [Hallownest Seal] awarded by [Grubfather]"@, scene_on(s.scenes, "Crossroads_38"@, "Shiny Item Relic2"@)),
        ("[HALLOWNEST_SEAL] [Hallownest Seal] in the well to [Forgotten Crossroads]"@, scene_on(s.scenes, "Crossroads_01"@, "Shiny Item"@)),
    ]
}

/// Appends this stretch of the category table.
fn relics_part2(m: &mut ChecksMap, save: &SaveFile)
    ensures
        final(m)@ == old(m)@ + relics_part2_of(save@),
{
    let pd = &save.player_data;
    m.push_entry("[WANDERER'S_JOURNAL] [Wanderer's Journal] in [Crystal Peak]", scene_activated(&save.scene_data, "Mines_20", "Shiny Item (1)"));
    m.push_entry("[WANDERER'S_JOURNAL] [Wanderer's Journal] in [Crypts](Resting Grounds#Crypts)", scene_activated(&save.scene_data, "RestingGrounds_10", "Shiny Item"));
    m.push_entry("[WANDERER'S_JOURNAL] [Wanderer's Journal] in [Royal Waterways]", scene_activated(&save.scene_data, "Abyss_02", "Shiny Item"));
    m.push_entry("[WANDERER'S_JOURNAL] [Wanderer's Journal] near [City of Tears] entrance", scene_activated(&save.scene_data, "Ruins2_05", "Shiny Item"));
    m.push_entry("[WANDERER'S_JOURNAL] [Wanderer's Journal] next to the [Cast-Off Shell] [Bench]", scene_activated(&save.scene_data, "Deepnest_East_13", "Shiny Item"));
    m.push_entry("[WANDERER'S_JOURNAL] [Wanderer's Journal] near [Markoth]", scene_activated(&save.scene_data, "Deepnest_East_18", "Shiny Item"));
    m.push_entry("[HALLOWNEST_SEAL] [Hallownest Seal] awarded by [Grubfather]", scene_activated(&save.scene_data, "Crossroads_38", "Shiny Item Relic2"));
    m.push_entry("[HALLOWNEST_SEAL] [Hallownest Seal] in the well to [Forgotten Crossroads]", scene_activated(&save.scene_data, "Crossroads_01", "Shiny Item"));
    proof {
        assert(final(m)@ =~= old(m)@ + relics_part2_of(save@));
    }
}

/// This stretch of the category table.
pub open spec fn relics_part3_of(s: SaveFileV) -> CategoryV {
    seq![
        ("[HALLOWNEST_SEAL] [Hallownest Seal] near [Thorns of Agony]"@, scene_on(s.scenes, "Fungus1_10"@, "Shiny Item"@)),
        ("[HALLOWNEST_SEAL] [Hallownest Seal] near [Queen's Station]"@, scene_on(s.scenes, "Fungus2_03"@, "Shiny Item"@)),
        ("[HALLOWNEST_SEAL] [Hallownest Seal] in [Mantis Village]"@, scene_on(s.scenes, "Fungus2_31"@, "Shiny Item"@)),
        ("[HALLOWNEST_SEAL] [Hallownest Seal] at the [Willoh]"@, scene_on(s.scenes, "Fungus2_34"@, "Shiny Item"@)),
        ("[HALLOWNEST_SEAL] [Hallownest Seal] near [Overgrown Mound]"@, scene_on(s.scenes, "Fungus3_30"@, "Shiny Item"@)),
        ("[HALLOWNEST_SEAL] [Hallownest Seal] in [Forgotten Crossroads] in [Fog Canyon] entrance"@, scene_on(s.scenes, "Fungus3_26"@, "Shiny Item"@)),
        ("[HALLOWNEST_SEAL] [Hallownest Seal] in [Crypts](Resting Grounds#Crypts)"@, scene_on(s.scenes, "RestingGrounds_10"@, "Shiny Item (1)"@)),
        ("[HALLOWNEST_SEAL] [Hallownest Seal] awarded by the [Seer]"@, s.player_data.dream_reward1),
    ]
}

/// Appends this stretch of the category table.
fn relics_part3(m: &mut ChecksMap, save: &SaveFile)
    ensures
        final(m)@ == old(m)@ + relics_part3_of(save@),
{
    let pd = &save.player_data;
    m.push_entry("[HALLOWNEST_SEAL] [Hallownest Seal] near [Thorns of Agony]", scene_activated(&save.scene_data, "Fungus1_10", "Shiny Item"));
    m.push_entry("[HALLOWNEST_SEAL] [Hallownest Seal] near [Queen's Station]", scene_activated(&save.scene_data, "Fungus2_03", "Shiny Item"));
    m.push_entry("[HALLOWNEST_SEAL] [Hallownest Seal] in [Mantis Village]", scene_activated(&save.scene_data, "Fungus2_31", "Shiny Item"));
    m.push_entry("[HALLOWNEST_SEAL] [Hallownest Seal] at the [Willoh]", scene_activated(&save.scene_data, "Fungus2_34", "Shiny Item"));
    m.push_entry("[HALLOWNEST_SEAL] [Hallownest Seal] near [Overgrown Mound]", scene_activated(&save.scene_data, "Fungus3_30", "Shiny Item"));
    m.push_entry("[HALLOWNEST_SEAL] [Hallownest Seal] in [Forgotten Crossroads] in [Fog Canyon] entrance", scene_activated(&save.scene_data, "Fungus3_26", "Shiny Item"));
    m.push_entry("[HALLOWNEST_SEAL] [Hallownest Seal] in [Crypts](Resting Grounds#Crypts)", scene_activated(&save.scene_data, "RestingGrounds_10", "Shiny Item (1)"));
    m.push_entry("[HALLOWNEST_SEAL] [Hallownest Seal] awarded by the [Seer]", pd.dream_reward1);
    proof {
        assert(final(m)@ =~= old(m)@ + relics_part3_of(save@));
    }
}

/// This stretch of the category table.
pub open spec fn relics_part4_of(s: SaveFileV) -> CategoryV {
    seq![
        ("[HALLOWNEST_SEAL] [Hallownest Seal] near [Relic Seeker Lemm]"@, scene_on(s.scenes, "Ruins1_03"@, "Shiny Item"@)),
        ("[HALLOWNEST_SEAL] [Hallownest Seal] above [King's Station] [Stag Station]"@, scene_on(s.scenes, "Ruins2_08"@, "Shiny Item"@)),
        ("[HALLOWNEST_SEAL] [Hallownest Seal] near [Soul Master]"@, scene_on(s.scenes, "Ruins1_32"@, "Shiny Item"@)),
        ("[HALLOWNEST_SEAL] [Hallownest Seal] behind [Watcher Knight]"@, scene_on(s.scenes, "Ruins2_03"@, "Shiny Item"@)),
        ("[HALLOWNEST_SEAL] [Hallownest Seal] in [Beast's Den]"@, scene_on(s.scenes, "Deepnest_Spider_Town"@, "Shiny Item"@)),
        ("[HALLOWNEST_SEAL] [Hallownest Seal] in [Deepnest] near [Mantis Lords]"@, scene_on(s.scenes, "Deepnest_16"@, "Shiny Item"@)),
        ("[HALLOWNEST_SEAL] [Hallownest Seal] in [Queen's Gardens]"@, scene_on(s.scenes, "Fungus3_48"@, "Shiny Item"@)),
        ("[KING'S_IDOL] [King's Idol] awarded by [Grubfather]"@, scene_on(s.scenes, "Crossroads_38"@, "Shiny Item Relic3"@)),
    ]
}

/// Appends this stretch of the category table.
fn relics_part4(m: &mut ChecksMap, save: &SaveFile)
    ensures
        final(m)@ == old(m)@ + relics_part4_of(save@),
{
    let pd = &save.player_data;
    m.push_entry("[HALLOWNEST_SEAL] [Hallownest Seal] near [Relic Seeker Lemm]", scene_activated(&save.scene_data, "Ruins1_03", "Shiny Item"));
    m.push_entry("[HALLOWNEST_SEAL] [Hallownest Seal] above [King's Station] [Stag Station]", scene_activated(&save.scene_data, "Ruins2_08", "Shiny Item"));
    m.push_entry("[HALLOWNEST_SEAL] [Hallownest Seal] near [Soul Master]", scene_activated(&save.scene_data, "Ruins1_32", "Shiny Item"));
    m.push_entry("[HALLOWNEST_SEAL] [Hallownest Seal] behind [Watcher Knight]", scene_activated(&save.scene_data, "Ruins2_03", "Shiny Item"));
    m.push_entry("[HALLOWNEST_SEAL] [Hallownest Seal] in [Beast's Den]", scene_activated(&save.scene_data, "Deepnest_Spider_Town", "Shiny Item"));
    m.push_entry("[HALLOWNEST_SEAL] [Hallownest Seal] in [Deepnest] near [Mantis Lords]", scene_activated(&save.scene_data, "Deepnest_16", "Shiny Item"));
    m.push_entry("[HALLOWNEST_SEAL] [Hallownest Seal] in [Queen's Gardens]", scene_activated(&save.scene_data, "Fungus3_48", "Shiny Item"));
    m.push_entry("[KING'S_IDOL] [King's Idol] awarded by [Grubfather]", scene_activated(&save.scene_data, "Crossroads_38", "Shiny Item Relic3"));
    proof {
        assert(final(m)@ =~= old(m)@ + relics_part4_of(save@));
    }
}

/// This stretch of the category table.
pub open spec fn relics_part5_of(s: SaveFileV) -> CategoryV {
    seq![
        ("[KING'S_IDOL] [King's Idol] in [Crystal Peak]"@, scene_on(s.scenes, "Mines_30"@, "Shiny Item Stand"@)),
        ("[KING'S_IDOL] [King's Idol] in [Spirits' Glade]"@, scene_on(s.scenes, "RestingGrounds_08"@, "Shiny Item"@)),
        ("[KING'S_IDOL] [King's Idol] in [Dung Defender]'s secret room"@, scene_on(s.scenes, "Waterways_15"@, "Shiny Item Stand"@)),
        ("[KING'S_IDOL] [King's Idol] in [Howling Cliffs]"@, scene_on(s.scenes, "Cliffs_01"@, "Shiny Item"@)),
        ("[KING'S_IDOL] [King's Idol] under [Colosseum of Fools]"@, scene_on(s.scenes, "Deepnest_East_08"@, "Shiny Item"@)),
        ("[KING'S_IDOL] [King's Idol] near [Pale Lurker]"@, scene_on(s.scenes, "GG_Lurker"@, "Shiny Item"@)),
        ("[KING'S_IDOL] [King's Idol] in [Deepnest] near [Zote]"@, scene_on(s.scenes, "Deepnest_33"@, "Shiny Item"@)),
        ("[ARCANE_EGG] [Arcane Egg] below [Lifeblood Core]"@, scene_on(s.scenes, "Abyss_08"@, "Shiny Item (1)"@)),
    ]
}

/// Appends this stretch of the category table.
fn relics_part5(m: &mut ChecksMap, save: &SaveFile)
    ensures
        final(m)@ == old(m)@ + relics_part5_of(save@),
{
    let pd = &save.player_data;
    m.push_entry("[KING'S_IDOL] [King's Idol] in [Crystal Peak]", scene_activated(&save.scene_data, "Mines_30", "Shiny Item Stand"));
    m.push_entry("[KING'S_IDOL] [King's Idol] in [Spirits' Glade]", scene_activated(&save.scene_data, "RestingGrounds_08", "Shiny Item"));
    m.push_entry("[KING'S_IDOL] [King's Idol] in [Dung Defender]'s secret room", scene_activated(&save.scene_data, "Waterways_15", "Shiny Item Stand"));
    m.push_entry("[KING'S_IDOL] [King's Idol] in [Howling Cliffs]", scene_activated(&save.scene_data, "Cliffs_01", "Shiny Item"));
    m.push_entry("[KING'S_IDOL] [King's Idol] under [Colosseum of Fools]", scene_activated(&save.scene_data, "Deepnest_East_08", "Shiny Item"));
    m.push_entry("[KING'S_IDOL] [King's Idol] near [Pale Lurker]", scene_activated(&save.scene_data, "GG_Lurker", "Shiny Item"));
    m.push_entry("[KING'S_IDOL] [King's Idol] in [Deepnest] near [Zote]", scene_activated(&save.scene_data, "Deepnest_33", "Shiny Item"));
    m.push_entry("[ARCANE_EGG] [Arcane Egg] below [Lifeblood Core]", scene_activated(&save.scene_data, "Abyss_08", "Shiny Item (1)"));
    proof {
        assert(final(m)@ =~= old(m)@ + relics_part5_of(save@));
    }
}

/// This stretch of the category table.
pub open spec fn relics_part6_of(s: SaveFileV) -> CategoryV {
    seq![
        ("[ARCANE_EGG] [Arcane Egg] near [Shade Cloak]"@, scene_on(s.scenes, "Abyss_10"@, "Shiny Item"@)),
        ("[ARCANE_EGG] [Arcane Egg] in [Birthplace]"@, scene_on(s.scenes, "Abyss_15"@, "Shiny Item"@)),
        ("[ARCANE_EGG] [Arcane Egg] awarded by the [Seer]"@, s.player_data.dream_reward6),
    ]
}

/// Appends this stretch of the category table.
fn relics_part6(m: &mut ChecksMap, save: &SaveFile)
    ensures
        final(m)@ == old(m)@ + relics_part6_of(save@),
{
    let pd = &save.player_data;
    m.push_entry("[ARCANE_EGG] [Arcane Egg] near [Shade Cloak]", scene_activated(&save.scene_data, "Abyss_10", "Shiny Item"));
    m.push_entry("[ARCANE_EGG] [Arcane Egg] in [Birthplace]", scene_activated(&save.scene_data, "Abyss_15", "Shiny Item"));
    m.push_entry("[ARCANE_EGG] [Arcane Egg] awarded by the [Seer]", pd.dream_reward6);
    proof {
        assert(final(m)@ =~= old(m)@ + relics_part6_of(save@));
    }
}

/// The fixed (label, predicate) table of this category, stretch by
/// stretch in its declared order.
pub open spec fn relics_of(s: SaveFileV) -> CategoryV {
    relics_part1_of(s) + relics_part2_of(s) + relics_part3_of(s) + relics_part4_of(s) + relics_part5_of(s) + relics_part6_of(s)
}

/// Builds this category in its fixed declared order.
fn relics_checks(save: &SaveFile) -> (r: ChecksMap)
    ensures
        r@ == relics_of(save@),
{
    let mut m = ChecksMap::empty();
    relics_part1(&mut m, save);
    relics_part2(&mut m, save);
    relics_part3(&mut m, save);
    relics_part4(&mut m, save);
    relics_part5(&mut m, save);
    relics_part6(&mut m, save);
    proof {
        assert(Seq::<(Seq<char>, bool)>::empty() + relics_part1_of(save@) =~= relics_part1_of(save@));
    }
    m
}

/// This stretch of the category table.
pub open spec fn whispering_roots_part1_of(s: SaveFileV) -> CategoryV {
    seq![
        ("[Ancestral Mound]"@, scene_on(s.scenes, "Crossroads_ShamanTemple"@, "Dream Plant"@)),
        ("[City of Tears]"@, scene_on(s.scenes, "Ruins1_17"@, "Dream Plant"@)),
        ("[Crystal Peak]"@, scene_on(s.scenes, "Mines_23"@, "Dream Plant"@)),
        ("[Deepnest]"@, scene_on(s.scenes, "Deepnest_39"@, "Dream Plant"@)),
        ("[Forgotten Crossroads]"@, scene_on(s.scenes, "Crossroads_07"@, "Dream Plant"@)),
        ("[Fungal Wastes] (near [Fog Canyon])"@, scene_on(s.scenes, "Fungus2_33"@, "Dream Plant"@)),
        ("[Fungal Wastes] (above [Mantis Village])"@, scene_on(s.scenes, "Fungus2_17"@, "Dream Plant"@)),
        ("[Greenpath]"@, scene_on(s.scenes, "Fungus1_13"@, "Dream Plant"@)),
    ]
}

/// Appends this stretch of the category table.
fn whispering_roots_part1(m: &mut ChecksMap, save: &SaveFile)
    ensures
        final(m)@ == old(m)@ + whispering_roots_part1_of(save@),
{
    let pd = &save.player_data;
    m.push_entry("[Ancestral Mound]", scene_activated(&save.scene_data, "Crossroads_ShamanTemple", "Dream Plant"));
    m.push_entry("[City of Tears]", scene_activated(&save.scene_data, "Ruins1_17", "Dream Plant"));
    m.push_entry("[Crystal Peak]", scene_activated(&save.scene_data, "Mines_23", "Dream Plant"));
    m.push_entry("[Deepnest]", scene_activated(&save.scene_data, "Deepnest_39", "Dream Plant"));
    m.push_entry("[Forgotten Crossroads]", scene_activated(&save.scene_data, "Crossroads_07", "Dream Plant"));
    m.push_entry("[Fungal Wastes] (near [Fog Canyon])", scene_activated(&save.scene_data, "Fungus2_33", "Dream Plant"));
    m.push_entry("[Fungal Wastes] (above [Mantis Village])", scene_activated(&save.scene_data, "Fungus2_17", "Dream Plant"));
    m.push_entry("[Greenpath]", scene_activated(&save.scene_data, "Fungus1_13", "Dream Plant"));
    proof {
        assert(final(m)@ =~= old(m)@ + whispering_roots_part1_of(save@));
    }
}

/// This stretch of the category table.
pub open spec fn whispering_roots_part2_of(s: SaveFileV) -> CategoryV {
    seq![
        ("[The Hive]"@, scene_on(s.scenes, "Hive_02"@, "Dream Plant"@)),
        ("[Howling Cliffs]"@, scene_on(s.scenes, "Cliffs_01"@, "Dream Plant"@)),
        ("[Kingdom's Edge]"@, scene_on(s.scenes, "Deepnest_East_07"@, "Dream Plant"@)),
        ("[Queen's Gardens]"@, scene_on(s.scenes, "Fungus3_11"@, "Dream Plant"@)),
        ("[Resting Grounds]"@, scene_on(s.scenes, "RestingGrounds_05"@, "Dream Plant"@)),
        ("[Royal Waterways]"@, scene_on(s.scenes, "Abyss_01"@, "Dream Plant"@)),
        ("[Spirits' Glade]"@, scene_on(s.scenes, "RestingGrounds_08"@, "Dream Plant"@)),
    ]
}

/// Appends this stretch of the category table.
fn whispering_roots_part2(m: &mut ChecksMap, save: &SaveFile)
    ensures
        final(m)@ == old(m)@ + whispering_roots_part2_of(save@),
{
    let pd = &save.player_data;
    m.push_entry("[The Hive]", scene_activated(&save.scene_data, "Hive_02", "Dream Plant"));
    m.push_entry("[Howling Cliffs]", scene_activated(&save.scene_data, "Cliffs_01", "Dream Plant"));
    m.push_entry("[Kingdom's Edge]", scene_activated(&save.scene_data, "Deepnest_East_07", "Dream Plant"));
    m.push_entry("[Queen's Gardens]", scene_activated(&save.scene_data, "Fungus3_11", "Dream Plant"));
    m.push_entry("[Resting Grounds]", scene_activated(&save.scene_data, "RestingGrounds_05", "Dream Plant"));
    m.push_entry("[Royal Waterways]", scene_activated(&save.scene_data, "Abyss_01", "Dream Plant"));
    m.push_entry("[Spirits' Glade]", scene_activated(&save.scene_data, "RestingGrounds_08", "Dream Plant"));
    proof {
        assert(final(m)@ =~= old(m)@ + whispering_roots_part2_of(save@));
    }
}

/// The fixed (label, predicate) table of this category, stretch by
/// stretch in its declared order.
pub open spec fn whispering_roots_of(s: SaveFileV) -> CategoryV {
    whispering_roots_part1_of(s) + whispering_roots_part2_of(s)
}

/// Builds this category in its fixed declared order.
fn whispering_roots_checks(save: &SaveFile) -> (r: ChecksMap)
    ensures
        r@ == whispering_roots_of(save@),
{
    let mut m = ChecksMap::empty();
    whispering_roots_part1(&mut m, save);
    whispering_roots_part2(&mut m, save);
    proof {
        assert(Seq::<(Seq<char>, bool)>::empty() + whispering_roots_part1_of(save@) =~= whispering_roots_part1_of(save@));
    }
    m
}

/// The full checklist the primary game variant's save maps to.
pub open spec fn hollow_knight_checks_of(s: SaveFileV) -> HollowKnightChecksV {
    HollowKnightChecksV {
        bosses: bosses_of(s),
        optional_bosses: optional_bosses_of(s),
        equipment: equipment_of(s),
        nail: nail_of(s),
        dream_nail: dream_nail_of(s),
        nail_arts: nail_arts_of(s),
        spells: spells_of(s),
        charms: charms_of(s),
        mask_shards: mask_shards_of(s),
        vessel_fragments: vessel_fragments_of(s),
        dreamers: dreamers_of(s),
        dream_warriors: dream_warriors_of(s),
        dream_bosses: dream_bosses_of(s),
        colosseum: colosseum_of(s),
        godhome: godhome_of(s),
        grubs: grubs_of(s),
        items: items_of(s),
        relics: relics_of(s),
        whispering_roots: whispering_roots_of(s),
    }
}

/// Derives the full checklist from a primary-variant save.
pub fn build_checks(save: &SaveFile) -> (r: HollowKnightChecks)
    ensures
        r@ == hollow_knight_checks_of(save@),
{
    HollowKnightChecks {
        bosses: bosses_checks(save),
        optional_bosses: optional_bosses_checks(save),
        equipment: equipment_checks(save),
        nail: nail_checks(save),
        dream_nail: dream_nail_checks(save),
        nail_arts: nail_arts_checks(save),
        spells: spells_checks(save),
        charms: charms_checks(save),
        mask_shards: mask_shards_checks(save),
        vessel_fragments: vessel_fragments_checks(save),
        dreamers: dreamers_checks(save),
        dream_warriors: dream_warriors_checks(save),
        dream_bosses: dream_bosses_checks(save),
        colosseum: colosseum_checks(save),
        godhome: godhome_checks(save),
        grubs: grubs_checks(save),
        items: items_checks(save),
        relics: relics_checks(save),
        whispering_roots: whispering_roots_checks(save),
    }
}

/// Maps a tagged raw save to its checklist. The second game variant's
/// mapping is not defined, so such a save is reported as unsupported and
/// no partial checklist is produced.
pub fn map_checklist(raw: &RawSave) -> (r: Result<HollowKnightChecks, ParseError>)
    ensures
        match r {
            Ok(c) => raw@ matches RawSaveV::HollowKnight(s) && c@ == hollow_knight_checks_of(s),
            Err(e) => raw@ is Silksong && e is UnsupportedVariant,
        },
{
    match raw {
        RawSave::HollowKnight(save) => Ok(build_checks(save)),
        RawSave::Silksong(_) => Err(ParseError::UnsupportedVariant),
    }
}

/// Threshold law for tiered nail upgrades: tier n is present exactly when
/// the upgrade level is strictly greater than n - 1.
pub proof fn lemma_nail_thresholds(s: SaveFileV)
    ensures
        nail_of(s).len() == 4,
        nail_of(s)[0].1 == (s.player_data.nail_smith_upgrades > 0),
        nail_of(s)[1].1 == (s.player_data.nail_smith_upgrades > 1),
        nail_of(s)[2].1 == (s.player_data.nail_smith_upgrades > 2),
        nail_of(s)[3].1 == (s.player_data.nail_smith_upgrades > 3),
{
}

/// Combination law for the dual-requirement charm entry: the final charms
/// entry is true exactly when all three of its required flags are set.
pub proof fn lemma_kingsoul_combination(s: SaveFileV)
    ensures
        charms_of(s).len() == 40,
        charms_of(s)[39].0 == "[Kingsoul] / [Void Heart]"@,
        charms_of(s)[39].1 == (s.player_data.got_charm_36 && s.player_data.got_king_fragment
            && s.player_data.got_queen_fragment),
{
    assert(charms_of(s)[39] == charms_part5_of(s)[7]);
}

/// Label and order stability law, shown for the boss and nail categories:
/// the labels of a category, and their order, do not depend on the save
/// being mapped.
pub proof fn lemma_labels_fixed(s1: SaveFileV, s2: SaveFileV)
    ensures
        labels_of(bosses_of(s1)) == labels_of(bosses_of(s2)),
        labels_of(nail_of(s1)) == labels_of(nail_of(s2)),
{
    assert(labels_of(bosses_of(s1)) =~= labels_of(bosses_of(s2)));
    assert(labels_of(nail_of(s1)) =~= labels_of(nail_of(s2)));
}

/// The labels of a category, in order.
pub open spec fn labels_of(c: CategoryV) -> Seq<Seq<char>> {
    c.map(|i: int, e: (Seq<char>, bool)| e.0)
}

} // verus!
