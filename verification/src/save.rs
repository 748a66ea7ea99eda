//! The raw save representation: the typed mirror of the decrypted
//! document's schema, and the verified extraction that builds it from a
//! parsed document. Field names follow the save format's own (external)
//! naming convention, which is kept as an explicit key per field.
//!
//! The record is wide, so the extraction walks it in a few slices, each
//! covering one contiguous stretch of the record's fields: one pass checks
//! that every field of the stretch is present with its expected type, and a
//! second pass reads the values.

use vstd::prelude::*;
use vstd::string::StringExecFns;

use crate::ParseError;
use crate::json::JsonVal;
use crate::json::bool_at;
use crate::json::field_of;
use crate::json::get_field;
use crate::json::level_at;
use crate::json::read_bool;
use crate::json::read_level;
use crate::json::read_string;
use crate::json::get_arr;
use crate::json::str_at;
use crate::json::arr_at;

verus! {

/// One pantheon door record: whether that pantheon was completed.
#[derive(Debug)]
pub struct BossDoorStateTier {
    pub completed: bool,
}

/// The flat player-progress record: boolean completion flags and small
/// integer "level" counters for tiered unlocks, keyed in the document by
/// the save format's fixed field names.
#[derive(Debug)]
pub struct PlayedData {
    pub fireball_level: u32,
    pub quake_level: u32,
    pub scream_level: u32,
    pub has_cyclone: bool,
    pub has_dash_slash: bool,
    pub has_upward_slash: bool,
    pub has_dream_nail: bool,
    pub has_dream_gate: bool,
    pub dream_nail_upgraded: bool,
    pub has_dash: bool,
    pub has_walljump: bool,
    pub has_super_dash: bool,
    pub has_shadow_dash: bool,
    pub has_acid_armour: bool,
    pub has_double_jump: bool,
    pub has_lantern: bool,
    pub has_tram_pass: bool,
    pub has_slykey: bool,
    pub gave_slykey: bool,
    pub has_white_key: bool,
    pub has_love_key: bool,
    pub has_kings_brand: bool,
    pub notch_shroom_ogres: bool,
    pub notch_fog_canyon: bool,
    pub got_lurker_key: bool,
    pub lurien_defeated: bool,
    pub hegemol_defeated: bool,
    pub monomon_defeated: bool,
    pub sly_shell_frag1: bool,
    pub sly_shell_frag2: bool,
    pub sly_shell_frag3: bool,
    pub sly_shell_frag4: bool,
    pub sly_vessel_frag1: bool,
    pub sly_vessel_frag2: bool,
    pub sly_simple_key: bool,
    pub moth_departed: bool,
    pub dream_reward1: bool,
    pub dream_reward3: bool,
    pub dream_reward5: bool,
    pub dream_reward6: bool,
    pub dream_reward7: bool,
    pub salubra_notch1: bool,
    pub salubra_notch2: bool,
    pub salubra_notch3: bool,
    pub salubra_notch4: bool,
    pub nail_smith_upgrades: u32,
    pub xun_flower_given: bool,
    pub colosseum_bronze_completed: bool,
    pub colosseum_silver_completed: bool,
    pub colosseum_gold_completed: bool,
    pub got_charm_1: bool,
    pub got_charm_2: bool,
    pub got_charm_3: bool,
    pub got_charm_4: bool,
    pub got_charm_5: bool,
    pub got_charm_6: bool,
    pub got_charm_7: bool,
    pub got_charm_8: bool,
    pub got_charm_9: bool,
    pub got_charm_10: bool,
    pub got_charm_11: bool,
    pub got_charm_12: bool,
    pub got_charm_13: bool,
    pub got_charm_14: bool,
    pub got_charm_15: bool,
    pub got_charm_16: bool,
    pub got_charm_17: bool,
    pub got_charm_18: bool,
    pub got_charm_19: bool,
    pub got_charm_20: bool,
    pub got_charm_21: bool,
    pub got_charm_22: bool,
    pub got_charm_23: bool,
    pub got_charm_24: bool,
    pub got_charm_25: bool,
    pub got_charm_26: bool,
    pub got_charm_27: bool,
    pub got_charm_28: bool,
    pub got_charm_29: bool,
    pub got_charm_30: bool,
    pub got_charm_31: bool,
    pub got_charm_32: bool,
    pub got_charm_33: bool,
    pub got_charm_34: bool,
    pub got_charm_35: bool,
    pub got_charm_36: bool,
    pub got_charm_37: bool,
    pub got_charm_38: bool,
    pub got_charm_39: bool,
    pub got_charm_40: bool,
    pub got_king_fragment: bool,
    pub got_queen_fragment: bool,
    pub killed_big_buzzer: bool,
    pub killed_big_fly: bool,
    pub killed_mawlek: bool,
    pub killed_mega_moss_charger: bool,
    pub killed_infected_knight: bool,
    pub killed_black_knight: bool,
    pub killed_mage_knight: bool,
    pub killed_jar_collector: bool,
    pub killed_flukeman: bool,
    pub killed_mega_beam_miner: bool,
    pub killed_mimic_spider: bool,
    pub killed_hive_knight: bool,
    pub killed_traitor_lord: bool,
    pub killed_oblobble: bool,
    pub killed_lobster_lancer: bool,
    pub killed_hollow_knight: bool,
    pub killed_final_boss: bool,
    pub killed_grimm: bool,
    pub killed_nightmare_grimm: bool,
    pub killed_nail_bros: bool,
    pub killed_paintmaster: bool,
    pub killed_nailsage: bool,
    pub killed_hollow_knight_prime: bool,
    pub false_knight_defeated: bool,
    pub false_knight_dream_defeated: bool,
    pub hornet1_defeated: bool,
    pub hornet_outskirts_defeated: bool,
    pub mage_lord_dream_defeated: bool,
    pub infected_knight_dream_defeated: bool,
    pub white_defender_defeated: bool,
    pub grey_prince_defeated: bool,
    pub aladar_slug_defeated: u32,
    pub xero_defeated: u32,
    pub elder_hu_defeated: u32,
    pub mum_caterpillar_defeated: u32,
    pub no_eyes_defeated: u32,
    pub markoth_defeated: u32,
    pub galien_defeated: u32,
    pub vessel_frag_stag_nest: bool,
    pub defeated_mega_jelly: bool,
    pub defeated_mantis_lords: bool,
    pub mage_lord_defeated: bool,
    pub opened_love_door: bool,
    pub defeated_dung_defender: bool,
    pub got_grimm_notch: bool,
    pub boss_door_state_tier1: BossDoorStateTier,
    pub boss_door_state_tier2: BossDoorStateTier,
    pub boss_door_state_tier3: BossDoorStateTier,
    pub boss_door_state_tier4: BossDoorStateTier,
    pub boss_door_state_tier5: BossDoorStateTier,
    pub has_godfinder: bool,
    pub nymm_in_town: bool,
}

/// The boolean "completed" field of a nested pantheon-door object. Kept
/// opaque: callers reason through `read_tier`'s contract.
#[verifier::opaque]
pub open spec fn tier_at(v: JsonVal, key: Seq<char>) -> Option<bool> {
    match field_of(v, key) {
        Some(f) => bool_at(f, "completed"@),
        None => None,
    }
}

/// Reads a nested pantheon-door object field.
pub fn read_tier(v: &JsonVal, key: &str) -> (r: Option<BossDoorStateTier>)
    ensures
        match r {
            Some(td) => tier_at(*v, key@) == Some(td.completed),
            None => tier_at(*v, key@) is None,
        },
{
    proof {
        reveal(tier_at);
    }
    match get_field(v, key) {
        Some(f) => match read_bool(f, "completed") {
            Some(c) => Some(BossDoorStateTier { completed: c }),
            None => None,
        },
        None => None,
    }
}

/// One stretch of the player-progress record's fields.
struct RecordSlice1 {
    fireball_level: u32,
    quake_level: u32,
    scream_level: u32,
    has_cyclone: bool,
    has_dash_slash: bool,
    has_upward_slash: bool,
    has_dream_nail: bool,
    has_dream_gate: bool,
    dream_nail_upgraded: bool,
    has_dash: bool,
    has_walljump: bool,
    has_super_dash: bool,
    has_shadow_dash: bool,
    has_acid_armour: bool,
    has_double_jump: bool,
    has_lantern: bool,
    has_tram_pass: bool,
    has_slykey: bool,
    gave_slykey: bool,
    has_white_key: bool,
    has_love_key: bool,
    has_kings_brand: bool,
    notch_shroom_ogres: bool,
    notch_fog_canyon: bool,
}

/// Every field of this stretch is present with its expected type.
spec fn slice1_ok(v: JsonVal) -> bool {
    &&& level_at(v, "fireballLevel"@) is Some
    &&& level_at(v, "quakeLevel"@) is Some
    &&& level_at(v, "screamLevel"@) is Some
    &&& bool_at(v, "hasCyclone"@) is Some
    &&& bool_at(v, "hasDashSlash"@) is Some
    &&& bool_at(v, "hasUpwardSlash"@) is Some
    &&& bool_at(v, "hasDreamNail"@) is Some
    &&& bool_at(v, "hasDreamGate"@) is Some
    &&& bool_at(v, "dreamNailUpgraded"@) is Some
    &&& bool_at(v, "hasDash"@) is Some
    &&& bool_at(v, "hasWalljump"@) is Some
    &&& bool_at(v, "hasSuperDash"@) is Some
    &&& bool_at(v, "hasShadowDash"@) is Some
    &&& bool_at(v, "hasAcidArmour"@) is Some
    &&& bool_at(v, "hasDoubleJump"@) is Some
    &&& bool_at(v, "hasLantern"@) is Some
    &&& bool_at(v, "hasTramPass"@) is Some
    &&& bool_at(v, "hasSlykey"@) is Some
    &&& bool_at(v, "gaveSlykey"@) is Some
    &&& bool_at(v, "hasWhiteKey"@) is Some
    &&& bool_at(v, "hasLoveKey"@) is Some
    &&& bool_at(v, "hasKingsBrand"@) is Some
    &&& bool_at(v, "notchShroomOgres"@) is Some
    &&& bool_at(v, "notchFogCanyon"@) is Some
}

/// The values this stretch of fields holds.
spec fn slice1_at(v: JsonVal) -> RecordSlice1 {
    RecordSlice1 {
        fireball_level: level_at(v, "fireballLevel"@)->Some_0,
        quake_level: level_at(v, "quakeLevel"@)->Some_0,
        scream_level: level_at(v, "screamLevel"@)->Some_0,
        has_cyclone: bool_at(v, "hasCyclone"@)->Some_0,
        has_dash_slash: bool_at(v, "hasDashSlash"@)->Some_0,
        has_upward_slash: bool_at(v, "hasUpwardSlash"@)->Some_0,
        has_dream_nail: bool_at(v, "hasDreamNail"@)->Some_0,
        has_dream_gate: bool_at(v, "hasDreamGate"@)->Some_0,
        dream_nail_upgraded: bool_at(v, "dreamNailUpgraded"@)->Some_0,
        has_dash: bool_at(v, "hasDash"@)->Some_0,
        has_walljump: bool_at(v, "hasWalljump"@)->Some_0,
        has_super_dash: bool_at(v, "hasSuperDash"@)->Some_0,
        has_shadow_dash: bool_at(v, "hasShadowDash"@)->Some_0,
        has_acid_armour: bool_at(v, "hasAcidArmour"@)->Some_0,
        has_double_jump: bool_at(v, "hasDoubleJump"@)->Some_0,
        has_lantern: bool_at(v, "hasLantern"@)->Some_0,
        has_tram_pass: bool_at(v, "hasTramPass"@)->Some_0,
        has_slykey: bool_at(v, "hasSlykey"@)->Some_0,
        gave_slykey: bool_at(v, "gaveSlykey"@)->Some_0,
        has_white_key: bool_at(v, "hasWhiteKey"@)->Some_0,
        has_love_key: bool_at(v, "hasLoveKey"@)->Some_0,
        has_kings_brand: bool_at(v, "hasKingsBrand"@)->Some_0,
        notch_shroom_ogres: bool_at(v, "notchShroomOgres"@)->Some_0,
        notch_fog_canyon: bool_at(v, "notchFogCanyon"@)->Some_0,
    }
}

/// Checks that every field of this stretch is present and well-typed.
fn check_slice1(v: &JsonVal) -> (ok: bool)
    ensures
        ok == slice1_ok(*v),
{
    read_level(v, "fireballLevel").is_some()
        && read_level(v, "quakeLevel").is_some()
        && read_level(v, "screamLevel").is_some()
        && read_bool(v, "hasCyclone").is_some()
        && read_bool(v, "hasDashSlash").is_some()
        && read_bool(v, "hasUpwardSlash").is_some()
        && read_bool(v, "hasDreamNail").is_some()
        && read_bool(v, "hasDreamGate").is_some()
        && read_bool(v, "dreamNailUpgraded").is_some()
        && read_bool(v, "hasDash").is_some()
        && read_bool(v, "hasWalljump").is_some()
        && read_bool(v, "hasSuperDash").is_some()
        && read_bool(v, "hasShadowDash").is_some()
        && read_bool(v, "hasAcidArmour").is_some()
        && read_bool(v, "hasDoubleJump").is_some()
        && read_bool(v, "hasLantern").is_some()
        && read_bool(v, "hasTramPass").is_some()
        && read_bool(v, "hasSlykey").is_some()
        && read_bool(v, "gaveSlykey").is_some()
        && read_bool(v, "hasWhiteKey").is_some()
        && read_bool(v, "hasLoveKey").is_some()
        && read_bool(v, "hasKingsBrand").is_some()
        && read_bool(v, "notchShroomOgres").is_some()
        && read_bool(v, "notchFogCanyon").is_some()
}

/// Reads the values of this stretch, once it is known well-formed.
fn values_slice1(v: &JsonVal) -> (r: RecordSlice1)
    requires
        slice1_ok(*v),
    ensures
        r == slice1_at(*v),
{
    let fireball_level = match read_level(v, "fireballLevel") {
        Some(x) => x,
        None => 0,
    };
    let quake_level = match read_level(v, "quakeLevel") {
        Some(x) => x,
        None => 0,
    };
    let scream_level = match read_level(v, "screamLevel") {
        Some(x) => x,
        None => 0,
    };
    let has_cyclone = match read_bool(v, "hasCyclone") {
        Some(x) => x,
        None => false,
    };
    let has_dash_slash = match read_bool(v, "hasDashSlash") {
        Some(x) => x,
        None => false,
    };
    let has_upward_slash = match read_bool(v, "hasUpwardSlash") {
        Some(x) => x,
        None => false,
    };
    let has_dream_nail = match read_bool(v, "hasDreamNail") {
        Some(x) => x,
        None => false,
    };
    let has_dream_gate = match read_bool(v, "hasDreamGate") {
        Some(x) => x,
        None => false,
    };
    let dream_nail_upgraded = match read_bool(v, "dreamNailUpgraded") {
        Some(x) => x,
        None => false,
    };
    let has_dash = match read_bool(v, "hasDash") {
        Some(x) => x,
        None => false,
    };
    let has_walljump = match read_bool(v, "hasWalljump") {
        Some(x) => x,
        None => false,
    };
    let has_super_dash = match read_bool(v, "hasSuperDash") {
        Some(x) => x,
        None => false,
    };
    let has_shadow_dash = match read_bool(v, "hasShadowDash") {
        Some(x) => x,
        None => false,
    };
    let has_acid_armour = match read_bool(v, "hasAcidArmour") {
        Some(x) => x,
        None => false,
    };
    let has_double_jump = match read_bool(v, "hasDoubleJump") {
        Some(x) => x,
        None => false,
    };
    let has_lantern = match read_bool(v, "hasLantern") {
        Some(x) => x,
        None => false,
    };
    let has_tram_pass = match read_bool(v, "hasTramPass") {
        Some(x) => x,
        None => false,
    };
    let has_slykey = match read_bool(v, "hasSlykey") {
        Some(x) => x,
        None => false,
    };
    let gave_slykey = match read_bool(v, "gaveSlykey") {
        Some(x) => x,
        None => false,
    };
    let has_white_key = match read_bool(v, "hasWhiteKey") {
        Some(x) => x,
        None => false,
    };
    let has_love_key = match read_bool(v, "hasLoveKey") {
        Some(x) => x,
        None => false,
    };
    let has_kings_brand = match read_bool(v, "hasKingsBrand") {
        Some(x) => x,
        None => false,
    };
    let notch_shroom_ogres = match read_bool(v, "notchShroomOgres") {
        Some(x) => x,
        None => false,
    };
    let notch_fog_canyon = match read_bool(v, "notchFogCanyon") {
        Some(x) => x,
        None => false,
    };
    RecordSlice1 {
        fireball_level,
        quake_level,
        scream_level,
        has_cyclone,
        has_dash_slash,
        has_upward_slash,
        has_dream_nail,
        has_dream_gate,
        dream_nail_upgraded,
        has_dash,
        has_walljump,
        has_super_dash,
        has_shadow_dash,
        has_acid_armour,
        has_double_jump,
        has_lantern,
        has_tram_pass,
        has_slykey,
        gave_slykey,
        has_white_key,
        has_love_key,
        has_kings_brand,
        notch_shroom_ogres,
        notch_fog_canyon,
    }
}

/// One stretch of the player-progress record's fields.
struct RecordSlice2 {
    got_lurker_key: bool,
    lurien_defeated: bool,
    hegemol_defeated: bool,
    monomon_defeated: bool,
    sly_shell_frag1: bool,
    sly_shell_frag2: bool,
    sly_shell_frag3: bool,
    sly_shell_frag4: bool,
    sly_vessel_frag1: bool,
    sly_vessel_frag2: bool,
    sly_simple_key: bool,
    moth_departed: bool,
    dream_reward1: bool,
    dream_reward3: bool,
    dream_reward5: bool,
    dream_reward6: bool,
    dream_reward7: bool,
    salubra_notch1: bool,
    salubra_notch2: bool,
    salubra_notch3: bool,
    salubra_notch4: bool,
    nail_smith_upgrades: u32,
    xun_flower_given: bool,
    colosseum_bronze_completed: bool,
}

/// Every field of this stretch is present with its expected type.
spec fn slice2_ok(v: JsonVal) -> bool {
    &&& bool_at(v, "gotLurkerKey"@) is Some
    &&& bool_at(v, "lurienDefeated"@) is Some
    &&& bool_at(v, "hegemolDefeated"@) is Some
    &&& bool_at(v, "monomonDefeated"@) is Some
    &&& bool_at(v, "slyShellFrag1"@) is Some
    &&& bool_at(v, "slyShellFrag2"@) is Some
    &&& bool_at(v, "slyShellFrag3"@) is Some
    &&& bool_at(v, "slyShellFrag4"@) is Some
    &&& bool_at(v, "slyVesselFrag1"@) is Some
    &&& bool_at(v, "slyVesselFrag2"@) is Some
    &&& bool_at(v, "slySimpleKey"@) is Some
    &&& bool_at(v, "mothDeparted"@) is Some
    &&& bool_at(v, "dreamReward1"@) is Some
    &&& bool_at(v, "dreamReward3"@) is Some
    &&& bool_at(v, "dreamReward5"@) is Some
    &&& bool_at(v, "dreamReward6"@) is Some
    &&& bool_at(v, "dreamReward7"@) is Some
    &&& bool_at(v, "salubraNotch1"@) is Some
    &&& bool_at(v, "salubraNotch2"@) is Some
    &&& bool_at(v, "salubraNotch3"@) is Some
    &&& bool_at(v, "salubraNotch4"@) is Some
    &&& level_at(v, "nailSmithUpgrades"@) is Some
    &&& bool_at(v, "xunFlowerGiven"@) is Some
    &&& bool_at(v, "colosseumBronzeCompleted"@) is Some
}

/// The values this stretch of fields holds.
spec fn slice2_at(v: JsonVal) -> RecordSlice2 {
    RecordSlice2 {
        got_lurker_key: bool_at(v, "gotLurkerKey"@)->Some_0,
        lurien_defeated: bool_at(v, "lurienDefeated"@)->Some_0,
        hegemol_defeated: bool_at(v, "hegemolDefeated"@)->Some_0,
        monomon_defeated: bool_at(v, "monomonDefeated"@)->Some_0,
        sly_shell_frag1: bool_at(v, "slyShellFrag1"@)->Some_0,
        sly_shell_frag2: bool_at(v, "slyShellFrag2"@)->Some_0,
        sly_shell_frag3: bool_at(v, "slyShellFrag3"@)->Some_0,
        sly_shell_frag4: bool_at(v, "slyShellFrag4"@)->Some_0,
        sly_vessel_frag1: bool_at(v, "slyVesselFrag1"@)->Some_0,
        sly_vessel_frag2: bool_at(v, "slyVesselFrag2"@)->Some_0,
        sly_simple_key: bool_at(v, "slySimpleKey"@)->Some_0,
        moth_departed: bool_at(v, "mothDeparted"@)->Some_0,
        dream_reward1: bool_at(v, "dreamReward1"@)->Some_0,
        dream_reward3: bool_at(v, "dreamReward3"@)->Some_0,
        dream_reward5: bool_at(v, "dreamReward5"@)->Some_0,
        dream_reward6: bool_at(v, "dreamReward6"@)->Some_0,
        dream_reward7: bool_at(v, "dreamReward7"@)->Some_0,
        salubra_notch1: bool_at(v, "salubraNotch1"@)->Some_0,
        salubra_notch2: bool_at(v, "salubraNotch2"@)->Some_0,
        salubra_notch3: bool_at(v, "salubraNotch3"@)->Some_0,
        salubra_notch4: bool_at(v, "salubraNotch4"@)->Some_0,
        nail_smith_upgrades: level_at(v, "nailSmithUpgrades"@)->Some_0,
        xun_flower_given: bool_at(v, "xunFlowerGiven"@)->Some_0,
        colosseum_bronze_completed: bool_at(v, "colosseumBronzeCompleted"@)->Some_0,
    }
}

/// Checks that every field of this stretch is present and well-typed.
fn check_slice2(v: &JsonVal) -> (ok: bool)
    ensures
        ok == slice2_ok(*v),
{
    read_bool(v, "gotLurkerKey").is_some()
        && read_bool(v, "lurienDefeated").is_some()
        && read_bool(v, "hegemolDefeated").is_some()
        && read_bool(v, "monomonDefeated").is_some()
        && read_bool(v, "slyShellFrag1").is_some()
        && read_bool(v, "slyShellFrag2").is_some()
        && read_bool(v, "slyShellFrag3").is_some()
        && read_bool(v, "slyShellFrag4").is_some()
        && read_bool(v, "slyVesselFrag1").is_some()
        && read_bool(v, "slyVesselFrag2").is_some()
        && read_bool(v, "slySimpleKey").is_some()
        && read_bool(v, "mothDeparted").is_some()
        && read_bool(v, "dreamReward1").is_some()
        && read_bool(v, "dreamReward3").is_some()
        && read_bool(v, "dreamReward5").is_some()
        && read_bool(v, "dreamReward6").is_some()
        && read_bool(v, "dreamReward7").is_some()
        && read_bool(v, "salubraNotch1").is_some()
        && read_bool(v, "salubraNotch2").is_some()
        && read_bool(v, "salubraNotch3").is_some()
        && read_bool(v, "salubraNotch4").is_some()
        && read_level(v, "nailSmithUpgrades").is_some()
        && read_bool(v, "xunFlowerGiven").is_some()
        && read_bool(v, "colosseumBronzeCompleted").is_some()
}

/// Reads the values of this stretch, once it is known well-formed.
fn values_slice2(v: &JsonVal) -> (r: RecordSlice2)
    requires
        slice2_ok(*v),
    ensures
        r == slice2_at(*v),
{
    let got_lurker_key = match read_bool(v, "gotLurkerKey") {
        Some(x) => x,
        None => false,
    };
    let lurien_defeated = match read_bool(v, "lurienDefeated") {
        Some(x) => x,
        None => false,
    };
    let hegemol_defeated = match read_bool(v, "hegemolDefeated") {
        Some(x) => x,
        None => false,
    };
    let monomon_defeated = match read_bool(v, "monomonDefeated") {
        Some(x) => x,
        None => false,
    };
    let sly_shell_frag1 = match read_bool(v, "slyShellFrag1") {
        Some(x) => x,
        None => false,
    };
    let sly_shell_frag2 = match read_bool(v, "slyShellFrag2") {
        Some(x) => x,
        None => false,
    };
    let sly_shell_frag3 = match read_bool(v, "slyShellFrag3") {
        Some(x) => x,
        None => false,
    };
    let sly_shell_frag4 = match read_bool(v, "slyShellFrag4") {
        Some(x) => x,
        None => false,
    };
    let sly_vessel_frag1 = match read_bool(v, "slyVesselFrag1") {
        Some(x) => x,
        None => false,
    };
    let sly_vessel_frag2 = match read_bool(v, "slyVesselFrag2") {
        Some(x) => x,
        None => false,
    };
    let sly_simple_key = match read_bool(v, "slySimpleKey") {
        Some(x) => x,
        None => false,
    };
    let moth_departed = match read_bool(v, "mothDeparted") {
        Some(x) => x,
        None => false,
    };
    let dream_reward1 = match read_bool(v, "dreamReward1") {
        Some(x) => x,
        None => false,
    };
    let dream_reward3 = match read_bool(v, "dreamReward3") {
        Some(x) => x,
        None => false,
    };
    let dream_reward5 = match read_bool(v, "dreamReward5") {
        Some(x) => x,
        None => false,
    };
    let dream_reward6 = match read_bool(v, "dreamReward6") {
        Some(x) => x,
        None => false,
    };
    let dream_reward7 = match read_bool(v, "dreamReward7") {
        Some(x) => x,
        None => false,
    };
    let salubra_notch1 = match read_bool(v, "salubraNotch1") {
        Some(x) => x,
        None => false,
    };
    let salubra_notch2 = match read_bool(v, "salubraNotch2") {
        Some(x) => x,
        None => false,
    };
    let salubra_notch3 = match read_bool(v, "salubraNotch3") {
        Some(x) => x,
        None => false,
    };
    let salubra_notch4 = match read_bool(v, "salubraNotch4") {
        Some(x) => x,
        None => false,
    };
    let nail_smith_upgrades = match read_level(v, "nailSmithUpgrades") {
        Some(x) => x,
        None => 0,
    };
    let xun_flower_given = match read_bool(v, "xunFlowerGiven") {
        Some(x) => x,
        None => false,
    };
    let colosseum_bronze_completed = match read_bool(v, "colosseumBronzeCompleted") {
        Some(x) => x,
        None => false,
    };
    RecordSlice2 {
        got_lurker_key,
        lurien_defeated,
        hegemol_defeated,
        monomon_defeated,
        sly_shell_frag1,
        sly_shell_frag2,
        sly_shell_frag3,
        sly_shell_frag4,
        sly_vessel_frag1,
        sly_vessel_frag2,
        sly_simple_key,
        moth_departed,
        dream_reward1,
        dream_reward3,
        dream_reward5,
        dream_reward6,
        dream_reward7,
        salubra_notch1,
        salubra_notch2,
        salubra_notch3,
        salubra_notch4,
        nail_smith_upgrades,
        xun_flower_given,
        colosseum_bronze_completed,
    }
}

/// One stretch of the player-progress record's fields.
struct RecordSlice3 {
    colosseum_silver_completed: bool,
    colosseum_gold_completed: bool,
    got_charm_1: bool,
    got_charm_2: bool,
    got_charm_3: bool,
    got_charm_4: bool,
    got_charm_5: bool,
    got_charm_6: bool,
    got_charm_7: bool,
    got_charm_8: bool,
    got_charm_9: bool,
    got_charm_10: bool,
    got_charm_11: bool,
    got_charm_12: bool,
    got_charm_13: bool,
    got_charm_14: bool,
    got_charm_15: bool,
    got_charm_16: bool,
    got_charm_17: bool,
    got_charm_18: bool,
    got_charm_19: bool,
    got_charm_20: bool,
    got_charm_21: bool,
    got_charm_22: bool,
}

/// Every field of this stretch is present with its expected type.
spec fn slice3_ok(v: JsonVal) -> bool {
    &&& bool_at(v, "colosseumSilverCompleted"@) is Some
    &&& bool_at(v, "colosseumGoldCompleted"@) is Some
    &&& bool_at(v, "gotCharm_1"@) is Some
    &&& bool_at(v, "gotCharm_2"@) is Some
    &&& bool_at(v, "gotCharm_3"@) is Some
    &&& bool_at(v, "gotCharm_4"@) is Some
    &&& bool_at(v, "gotCharm_5"@) is Some
    &&& bool_at(v, "gotCharm_6"@) is Some
    &&& bool_at(v, "gotCharm_7"@) is Some
    &&& bool_at(v, "gotCharm_8"@) is Some
    &&& bool_at(v, "gotCharm_9"@) is Some
    &&& bool_at(v, "gotCharm_10"@) is Some
    &&& bool_at(v, "gotCharm_11"@) is Some
    &&& bool_at(v, "gotCharm_12"@) is Some
    &&& bool_at(v, "gotCharm_13"@) is Some
    &&& bool_at(v, "gotCharm_14"@) is Some
    &&& bool_at(v, "gotCharm_15"@) is Some
    &&& bool_at(v, "gotCharm_16"@) is Some
    &&& bool_at(v, "gotCharm_17"@) is Some
    &&& bool_at(v, "gotCharm_18"@) is Some
    &&& bool_at(v, "gotCharm_19"@) is Some
    &&& bool_at(v, "gotCharm_20"@) is Some
    &&& bool_at(v, "gotCharm_21"@) is Some
    &&& bool_at(v, "gotCharm_22"@) is Some
}

/// The values this stretch of fields holds.
spec fn slice3_at(v: JsonVal) -> RecordSlice3 {
    RecordSlice3 {
        colosseum_silver_completed: bool_at(v, "colosseumSilverCompleted"@)->Some_0,
        colosseum_gold_completed: bool_at(v, "colosseumGoldCompleted"@)->Some_0,
        got_charm_1: bool_at(v, "gotCharm_1"@)->Some_0,
        got_charm_2: bool_at(v, "gotCharm_2"@)->Some_0,
        got_charm_3: bool_at(v, "gotCharm_3"@)->Some_0,
        got_charm_4: bool_at(v, "gotCharm_4"@)->Some_0,
        got_charm_5: bool_at(v, "gotCharm_5"@)->Some_0,
        got_charm_6: bool_at(v, "gotCharm_6"@)->Some_0,
        got_charm_7: bool_at(v, "gotCharm_7"@)->Some_0,
        got_charm_8: bool_at(v, "gotCharm_8"@)->Some_0,
        got_charm_9: bool_at(v, "gotCharm_9"@)->Some_0,
        got_charm_10: bool_at(v, "gotCharm_10"@)->Some_0,
        got_charm_11: bool_at(v, "gotCharm_11"@)->Some_0,
        got_charm_12: bool_at(v, "gotCharm_12"@)->Some_0,
        got_charm_13: bool_at(v, "gotCharm_13"@)->Some_0,
        got_charm_14: bool_at(v, "gotCharm_14"@)->Some_0,
        got_charm_15: bool_at(v, "gotCharm_15"@)->Some_0,
        got_charm_16: bool_at(v, "gotCharm_16"@)->Some_0,
        got_charm_17: bool_at(v, "gotCharm_17"@)->Some_0,
        got_charm_18: bool_at(v, "gotCharm_18"@)->Some_0,
        got_charm_19: bool_at(v, "gotCharm_19"@)->Some_0,
        got_charm_20: bool_at(v, "gotCharm_20"@)->Some_0,
        got_charm_21: bool_at(v, "gotCharm_21"@)->Some_0,
        got_charm_22: bool_at(v, "gotCharm_22"@)->Some_0,
    }
}

/// Checks that every field of this stretch is present and well-typed.
fn check_slice3(v: &JsonVal) -> (ok: bool)
    ensures
        ok == slice3_ok(*v),
{
    read_bool(v, "colosseumSilverCompleted").is_some()
        && read_bool(v, "colosseumGoldCompleted").is_some()
        && read_bool(v, "gotCharm_1").is_some()
        && read_bool(v, "gotCharm_2").is_some()
        && read_bool(v, "gotCharm_3").is_some()
        && read_bool(v, "gotCharm_4").is_some()
        && read_bool(v, "gotCharm_5").is_some()
        && read_bool(v, "gotCharm_6").is_some()
        && read_bool(v, "gotCharm_7").is_some()
        && read_bool(v, "gotCharm_8").is_some()
        && read_bool(v, "gotCharm_9").is_some()
        && read_bool(v, "gotCharm_10").is_some()
        && read_bool(v, "gotCharm_11").is_some()
        && read_bool(v, "gotCharm_12").is_some()
        && read_bool(v, "gotCharm_13").is_some()
        && read_bool(v, "gotCharm_14").is_some()
        && read_bool(v, "gotCharm_15").is_some()
        && read_bool(v, "gotCharm_16").is_some()
        && read_bool(v, "gotCharm_17").is_some()
        && read_bool(v, "gotCharm_18").is_some()
        && read_bool(v, "gotCharm_19").is_some()
        && read_bool(v, "gotCharm_20").is_some()
        && read_bool(v, "gotCharm_21").is_some()
        && read_bool(v, "gotCharm_22").is_some()
}

/// Reads the values of this stretch, once it is known well-formed.
fn values_slice3(v: &JsonVal) -> (r: RecordSlice3)
    requires
        slice3_ok(*v),
    ensures
        r == slice3_at(*v),
{
    let colosseum_silver_completed = match read_bool(v, "colosseumSilverCompleted") {
        Some(x) => x,
        None => false,
    };
    let colosseum_gold_completed = match read_bool(v, "colosseumGoldCompleted") {
        Some(x) => x,
        None => false,
    };
    let got_charm_1 = match read_bool(v, "gotCharm_1") {
        Some(x) => x,
        None => false,
    };
    let got_charm_2 = match read_bool(v, "gotCharm_2") {
        Some(x) => x,
        None => false,
    };
    let got_charm_3 = match read_bool(v, "gotCharm_3") {
        Some(x) => x,
        None => false,
    };
    let got_charm_4 = match read_bool(v, "gotCharm_4") {
        Some(x) => x,
        None => false,
    };
    let got_charm_5 = match read_bool(v, "gotCharm_5") {
        Some(x) => x,
        None => false,
    };
    let got_charm_6 = match read_bool(v, "gotCharm_6") {
        Some(x) => x,
        None => false,
    };
    let got_charm_7 = match read_bool(v, "gotCharm_7") {
        Some(x) => x,
        None => false,
    };
    let got_charm_8 = match read_bool(v, "gotCharm_8") {
        Some(x) => x,
        None => false,
    };
    let got_charm_9 = match read_bool(v, "gotCharm_9") {
        Some(x) => x,
        None => false,
    };
    let got_charm_10 = match read_bool(v, "gotCharm_10") {
        Some(x) => x,
        None => false,
    };
    let got_charm_11 = match read_bool(v, "gotCharm_11") {
        Some(x) => x,
        None => false,
    };
    let got_charm_12 = match read_bool(v, "gotCharm_12") {
        Some(x) => x,
        None => false,
    };
    let got_charm_13 = match read_bool(v, "gotCharm_13") {
        Some(x) => x,
        None => false,
    };
    let got_charm_14 = match read_bool(v, "gotCharm_14") {
        Some(x) => x,
        None => false,
    };
    let got_charm_15 = match read_bool(v, "gotCharm_15") {
        Some(x) => x,
        None => false,
    };
    let got_charm_16 = match read_bool(v, "gotCharm_16") {
        Some(x) => x,
        None => false,
    };
    let got_charm_17 = match read_bool(v, "gotCharm_17") {
        Some(x) => x,
        None => false,
    };
    let got_charm_18 = match read_bool(v, "gotCharm_18") {
        Some(x) => x,
        None => false,
    };
    let got_charm_19 = match read_bool(v, "gotCharm_19") {
        Some(x) => x,
        None => false,
    };
    let got_charm_20 = match read_bool(v, "gotCharm_20") {
        Some(x) => x,
        None => false,
    };
    let got_charm_21 = match read_bool(v, "gotCharm_21") {
        Some(x) => x,
        None => false,
    };
    let got_charm_22 = match read_bool(v, "gotCharm_22") {
        Some(x) => x,
        None => false,
    };
    RecordSlice3 {
        colosseum_silver_completed,
        colosseum_gold_completed,
        got_charm_1,
        got_charm_2,
        got_charm_3,
        got_charm_4,
        got_charm_5,
        got_charm_6,
        got_charm_7,
        got_charm_8,
        got_charm_9,
        got_charm_10,
        got_charm_11,
        got_charm_12,
        got_charm_13,
        got_charm_14,
        got_charm_15,
        got_charm_16,
        got_charm_17,
        got_charm_18,
        got_charm_19,
        got_charm_20,
        got_charm_21,
        got_charm_22,
    }
}

/// One stretch of the player-progress record's fields.
struct RecordSlice4 {
    got_charm_23: bool,
    got_charm_24: bool,
    got_charm_25: bool,
    got_charm_26: bool,
    got_charm_27: bool,
    got_charm_28: bool,
    got_charm_29: bool,
    got_charm_30: bool,
    got_charm_31: bool,
    got_charm_32: bool,
    got_charm_33: bool,
    got_charm_34: bool,
    got_charm_35: bool,
    got_charm_36: bool,
    got_charm_37: bool,
    got_charm_38: bool,
    got_charm_39: bool,
    got_charm_40: bool,
    got_king_fragment: bool,
    got_queen_fragment: bool,
    killed_big_buzzer: bool,
    killed_big_fly: bool,
    killed_mawlek: bool,
    killed_mega_moss_charger: bool,
}

/// Every field of this stretch is present with its expected type.
spec fn slice4_ok(v: JsonVal) -> bool {
    &&& bool_at(v, "gotCharm_23"@) is Some
    &&& bool_at(v, "gotCharm_24"@) is Some
    &&& bool_at(v, "gotCharm_25"@) is Some
    &&& bool_at(v, "gotCharm_26"@) is Some
    &&& bool_at(v, "gotCharm_27"@) is Some
    &&& bool_at(v, "gotCharm_28"@) is Some
    &&& bool_at(v, "gotCharm_29"@) is Some
    &&& bool_at(v, "gotCharm_30"@) is Some
    &&& bool_at(v, "gotCharm_31"@) is Some
    &&& bool_at(v, "gotCharm_32"@) is Some
    &&& bool_at(v, "gotCharm_33"@) is Some
    &&& bool_at(v, "gotCharm_34"@) is Some
    &&& bool_at(v, "gotCharm_35"@) is Some
    &&& bool_at(v, "gotCharm_36"@) is Some
    &&& bool_at(v, "gotCharm_37"@) is Some
    &&& bool_at(v, "gotCharm_38"@) is Some
    &&& bool_at(v, "gotCharm_39"@) is Some
    &&& bool_at(v, "gotCharm_40"@) is Some
    &&& bool_at(v, "gotKingFragment"@) is Some
    &&& bool_at(v, "gotQueenFragment"@) is Some
    &&& bool_at(v, "killedBigBuzzer"@) is Some
    &&& bool_at(v, "killedBigFly"@) is Some
    &&& bool_at(v, "killedMawlek"@) is Some
    &&& bool_at(v, "killedMegaMossCharger"@) is Some
}

/// The values this stretch of fields holds.
spec fn slice4_at(v: JsonVal) -> RecordSlice4 {
    RecordSlice4 {
        got_charm_23: bool_at(v, "gotCharm_23"@)->Some_0,
        got_charm_24: bool_at(v, "gotCharm_24"@)->Some_0,
        got_charm_25: bool_at(v, "gotCharm_25"@)->Some_0,
        got_charm_26: bool_at(v, "gotCharm_26"@)->Some_0,
        got_charm_27: bool_at(v, "gotCharm_27"@)->Some_0,
        got_charm_28: bool_at(v, "gotCharm_28"@)->Some_0,
        got_charm_29: bool_at(v, "gotCharm_29"@)->Some_0,
        got_charm_30: bool_at(v, "gotCharm_30"@)->Some_0,
        got_charm_31: bool_at(v, "gotCharm_31"@)->Some_0,
        got_charm_32: bool_at(v, "gotCharm_32"@)->Some_0,
        got_charm_33: bool_at(v, "gotCharm_33"@)->Some_0,
        got_charm_34: bool_at(v, "gotCharm_34"@)->Some_0,
        got_charm_35: bool_at(v, "gotCharm_35"@)->Some_0,
        got_charm_36: bool_at(v, "gotCharm_36"@)->Some_0,
        got_charm_37: bool_at(v, "gotCharm_37"@)->Some_0,
        got_charm_38: bool_at(v, "gotCharm_38"@)->Some_0,
        got_charm_39: bool_at(v, "gotCharm_39"@)->Some_0,
        got_charm_40: bool_at(v, "gotCharm_40"@)->Some_0,
        got_king_fragment: bool_at(v, "gotKingFragment"@)->Some_0,
        got_queen_fragment: bool_at(v, "gotQueenFragment"@)->Some_0,
        killed_big_buzzer: bool_at(v, "killedBigBuzzer"@)->Some_0,
        killed_big_fly: bool_at(v, "killedBigFly"@)->Some_0,
        killed_mawlek: bool_at(v, "killedMawlek"@)->Some_0,
        killed_mega_moss_charger: bool_at(v, "killedMegaMossCharger"@)->Some_0,
    }
}

/// Checks that every field of this stretch is present and well-typed.
fn check_slice4(v: &JsonVal) -> (ok: bool)
    ensures
        ok == slice4_ok(*v),
{
    read_bool(v, "gotCharm_23").is_some()
        && read_bool(v, "gotCharm_24").is_some()
        && read_bool(v, "gotCharm_25").is_some()
        && read_bool(v, "gotCharm_26").is_some()
        && read_bool(v, "gotCharm_27").is_some()
        && read_bool(v, "gotCharm_28").is_some()
        && read_bool(v, "gotCharm_29").is_some()
        && read_bool(v, "gotCharm_30").is_some()
        && read_bool(v, "gotCharm_31").is_some()
        && read_bool(v, "gotCharm_32").is_some()
        && read_bool(v, "gotCharm_33").is_some()
        && read_bool(v, "gotCharm_34").is_some()
        && read_bool(v, "gotCharm_35").is_some()
        && read_bool(v, "gotCharm_36").is_some()
        && read_bool(v, "gotCharm_37").is_some()
        && read_bool(v, "gotCharm_38").is_some()
        && read_bool(v, "gotCharm_39").is_some()
        && read_bool(v, "gotCharm_40").is_some()
        && read_bool(v, "gotKingFragment").is_some()
        && read_bool(v, "gotQueenFragment").is_some()
        && read_bool(v, "killedBigBuzzer").is_some()
        && read_bool(v, "killedBigFly").is_some()
        && read_bool(v, "killedMawlek").is_some()
        && read_bool(v, "killedMegaMossCharger").is_some()
}

/// Reads the values of this stretch, once it is known well-formed.
fn values_slice4(v: &JsonVal) -> (r: RecordSlice4)
    requires
        slice4_ok(*v),
    ensures
        r == slice4_at(*v),
{
    let got_charm_23 = match read_bool(v, "gotCharm_23") {
        Some(x) => x,
        None => false,
    };
    let got_charm_24 = match read_bool(v, "gotCharm_24") {
        Some(x) => x,
        None => false,
    };
    let got_charm_25 = match read_bool(v, "gotCharm_25") {
        Some(x) => x,
        None => false,
    };
    let got_charm_26 = match read_bool(v, "gotCharm_26") {
        Some(x) => x,
        None => false,
    };
    let got_charm_27 = match read_bool(v, "gotCharm_27") {
        Some(x) => x,
        None => false,
    };
    let got_charm_28 = match read_bool(v, "gotCharm_28") {
        Some(x) => x,
        None => false,
    };
    let got_charm_29 = match read_bool(v, "gotCharm_29") {
        Some(x) => x,
        None => false,
    };
    let got_charm_30 = match read_bool(v, "gotCharm_30") {
        Some(x) => x,
        None => false,
    };
    let got_charm_31 = match read_bool(v, "gotCharm_31") {
        Some(x) => x,
        None => false,
    };
    let got_charm_32 = match read_bool(v, "gotCharm_32") {
        Some(x) => x,
        None => false,
    };
    let got_charm_33 = match read_bool(v, "gotCharm_33") {
        Some(x) => x,
        None => false,
    };
    let got_charm_34 = match read_bool(v, "gotCharm_34") {
        Some(x) => x,
        None => false,
    };
    let got_charm_35 = match read_bool(v, "gotCharm_35") {
        Some(x) => x,
        None => false,
    };
    let got_charm_36 = match read_bool(v, "gotCharm_36") {
        Some(x) => x,
        None => false,
    };
    let got_charm_37 = match read_bool(v, "gotCharm_37") {
        Some(x) => x,
        None => false,
    };
    let got_charm_38 = match read_bool(v, "gotCharm_38") {
        Some(x) => x,
        None => false,
    };
    let got_charm_39 = match read_bool(v, "gotCharm_39") {
        Some(x) => x,
        None => false,
    };
    let got_charm_40 = match read_bool(v, "gotCharm_40") {
        Some(x) => x,
        None => false,
    };
    let got_king_fragment = match read_bool(v, "gotKingFragment") {
        Some(x) => x,
        None => false,
    };
    let got_queen_fragment = match read_bool(v, "gotQueenFragment") {
        Some(x) => x,
        None => false,
    };
    let killed_big_buzzer = match read_bool(v, "killedBigBuzzer") {
        Some(x) => x,
        None => false,
    };
    let killed_big_fly = match read_bool(v, "killedBigFly") {
        Some(x) => x,
        None => false,
    };
    let killed_mawlek = match read_bool(v, "killedMawlek") {
        Some(x) => x,
        None => false,
    };
    let killed_mega_moss_charger = match read_bool(v, "killedMegaMossCharger") {
        Some(x) => x,
        None => false,
    };
    RecordSlice4 {
        got_charm_23,
        got_charm_24,
        got_charm_25,
        got_charm_26,
        got_charm_27,
        got_charm_28,
        got_charm_29,
        got_charm_30,
        got_charm_31,
        got_charm_32,
        got_charm_33,
        got_charm_34,
        got_charm_35,
        got_charm_36,
        got_charm_37,
        got_charm_38,
        got_charm_39,
        got_charm_40,
        got_king_fragment,
        got_queen_fragment,
        killed_big_buzzer,
        killed_big_fly,
        killed_mawlek,
        killed_mega_moss_charger,
    }
}

/// One stretch of the player-progress record's fields.
struct RecordSlice5 {
    killed_infected_knight: bool,
    killed_black_knight: bool,
    killed_mage_knight: bool,
    killed_jar_collector: bool,
    killed_flukeman: bool,
    killed_mega_beam_miner: bool,
    killed_mimic_spider: bool,
    killed_hive_knight: bool,
    killed_traitor_lord: bool,
    killed_oblobble: bool,
    killed_lobster_lancer: bool,
    killed_hollow_knight: bool,
    killed_final_boss: bool,
    killed_grimm: bool,
    killed_nightmare_grimm: bool,
    killed_nail_bros: bool,
    killed_paintmaster: bool,
    killed_nailsage: bool,
    killed_hollow_knight_prime: bool,
    false_knight_defeated: bool,
    false_knight_dream_defeated: bool,
    hornet1_defeated: bool,
    hornet_outskirts_defeated: bool,
    mage_lord_dream_defeated: bool,
}

/// Every field of this stretch is present with its expected type.
spec fn slice5_ok(v: JsonVal) -> bool {
    &&& bool_at(v, "killedInfectedKnight"@) is Some
    &&& bool_at(v, "killedBlackKnight"@) is Some
    &&& bool_at(v, "killedMageKnight"@) is Some
    &&& bool_at(v, "killedJarCollector"@) is Some
    &&& bool_at(v, "killedFlukeman"@) is Some
    &&& bool_at(v, "killedMegaBeamMiner"@) is Some
    &&& bool_at(v, "killedMimicSpider"@) is Some
    &&& bool_at(v, "killedHiveKnight"@) is Some
    &&& bool_at(v, "killedTraitorLord"@) is Some
    &&& bool_at(v, "killedOblobble"@) is Some
    &&& bool_at(v, "killedLobsterLancer"@) is Some
    &&& bool_at(v, "killedHollowKnight"@) is Some
    &&& bool_at(v, "killedFinalBoss"@) is Some
    &&& bool_at(v, "killedGrimm"@) is Some
    &&& bool_at(v, "killedNightmareGrimm"@) is Some
    &&& bool_at(v, "killedNailBros"@) is Some
    &&& bool_at(v, "killedPaintmaster"@) is Some
    &&& bool_at(v, "killedNailsage"@) is Some
    &&& bool_at(v, "killedHollowKnightPrime"@) is Some
    &&& bool_at(v, "falseKnightDefeated"@) is Some
    &&& bool_at(v, "falseKnightDreamDefeated"@) is Some
    &&& bool_at(v, "hornet1Defeated"@) is Some
    &&& bool_at(v, "hornetOutskirtsDefeated"@) is Some
    &&& bool_at(v, "mageLordDreamDefeated"@) is Some
}

/// The values this stretch of fields holds.
spec fn slice5_at(v: JsonVal) -> RecordSlice5 {
    RecordSlice5 {
        killed_infected_knight: bool_at(v, "killedInfectedKnight"@)->Some_0,
        killed_black_knight: bool_at(v, "killedBlackKnight"@)->Some_0,
        killed_mage_knight: bool_at(v, "killedMageKnight"@)->Some_0,
        killed_jar_collector: bool_at(v, "killedJarCollector"@)->Some_0,
        killed_flukeman: bool_at(v, "killedFlukeman"@)->Some_0,
        killed_mega_beam_miner: bool_at(v, "killedMegaBeamMiner"@)->Some_0,
        killed_mimic_spider: bool_at(v, "killedMimicSpider"@)->Some_0,
        killed_hive_knight: bool_at(v, "killedHiveKnight"@)->Some_0,
        killed_traitor_lord: bool_at(v, "killedTraitorLord"@)->Some_0,
        killed_oblobble: bool_at(v, "killedOblobble"@)->Some_0,
        killed_lobster_lancer: bool_at(v, "killedLobsterLancer"@)->Some_0,
        killed_hollow_knight: bool_at(v, "killedHollowKnight"@)->Some_0,
        killed_final_boss: bool_at(v, "killedFinalBoss"@)->Some_0,
        killed_grimm: bool_at(v, "killedGrimm"@)->Some_0,
        killed_nightmare_grimm: bool_at(v, "killedNightmareGrimm"@)->Some_0,
        killed_nail_bros: bool_at(v, "killedNailBros"@)->Some_0,
        killed_paintmaster: bool_at(v, "killedPaintmaster"@)->Some_0,
        killed_nailsage: bool_at(v, "killedNailsage"@)->Some_0,
        killed_hollow_knight_prime: bool_at(v, "killedHollowKnightPrime"@)->Some_0,
        false_knight_defeated: bool_at(v, "falseKnightDefeated"@)->Some_0,
        false_knight_dream_defeated: bool_at(v, "falseKnightDreamDefeated"@)->Some_0,
        hornet1_defeated: bool_at(v, "hornet1Defeated"@)->Some_0,
        hornet_outskirts_defeated: bool_at(v, "hornetOutskirtsDefeated"@)->Some_0,
        mage_lord_dream_defeated: bool_at(v, "mageLordDreamDefeated"@)->Some_0,
    }
}

/// Checks that every field of this stretch is present and well-typed.
fn check_slice5(v: &JsonVal) -> (ok: bool)
    ensures
        ok == slice5_ok(*v),
{
    read_bool(v, "killedInfectedKnight").is_some()
        && read_bool(v, "killedBlackKnight").is_some()
        && read_bool(v, "killedMageKnight").is_some()
        && read_bool(v, "killedJarCollector").is_some()
        && read_bool(v, "killedFlukeman").is_some()
        && read_bool(v, "killedMegaBeamMiner").is_some()
        && read_bool(v, "killedMimicSpider").is_some()
        && read_bool(v, "killedHiveKnight").is_some()
        && read_bool(v, "killedTraitorLord").is_some()
        && read_bool(v, "killedOblobble").is_some()
        && read_bool(v, "killedLobsterLancer").is_some()
        && read_bool(v, "killedHollowKnight").is_some()
        && read_bool(v, "killedFinalBoss").is_some()
        && read_bool(v, "killedGrimm").is_some()
        && read_bool(v, "killedNightmareGrimm").is_some()
        && read_bool(v, "killedNailBros").is_some()
        && read_bool(v, "killedPaintmaster").is_some()
        && read_bool(v, "killedNailsage").is_some()
        && read_bool(v, "killedHollowKnightPrime").is_some()
        && read_bool(v, "falseKnightDefeated").is_some()
        && read_bool(v, "falseKnightDreamDefeated").is_some()
        && read_bool(v, "hornet1Defeated").is_some()
        && read_bool(v, "hornetOutskirtsDefeated").is_some()
        && read_bool(v, "mageLordDreamDefeated").is_some()
}

/// Reads the values of this stretch, once it is known well-formed.
fn values_slice5(v: &JsonVal) -> (r: RecordSlice5)
    requires
        slice5_ok(*v),
    ensures
        r == slice5_at(*v),
{
    let killed_infected_knight = match read_bool(v, "killedInfectedKnight") {
        Some(x) => x,
        None => false,
    };
    let killed_black_knight = match read_bool(v, "killedBlackKnight") {
        Some(x) => x,
        None => false,
    };
    let killed_mage_knight = match read_bool(v, "killedMageKnight") {
        Some(x) => x,
        None => false,
    };
    let killed_jar_collector = match read_bool(v, "killedJarCollector") {
        Some(x) => x,
        None => false,
    };
    let killed_flukeman = match read_bool(v, "killedFlukeman") {
        Some(x) => x,
        None => false,
    };
    let killed_mega_beam_miner = match read_bool(v, "killedMegaBeamMiner") {
        Some(x) => x,
        None => false,
    };
    let killed_mimic_spider = match read_bool(v, "killedMimicSpider") {
        Some(x) => x,
        None => false,
    };
    let killed_hive_knight = match read_bool(v, "killedHiveKnight") {
        Some(x) => x,
        None => false,
    };
    let killed_traitor_lord = match read_bool(v, "killedTraitorLord") {
        Some(x) => x,
        None => false,
    };
    let killed_oblobble = match read_bool(v, "killedOblobble") {
        Some(x) => x,
        None => false,
    };
    let killed_lobster_lancer = match read_bool(v, "killedLobsterLancer") {
        Some(x) => x,
        None => false,
    };
    let killed_hollow_knight = match read_bool(v, "killedHollowKnight") {
        Some(x) => x,
        None => false,
    };
    let killed_final_boss = match read_bool(v, "killedFinalBoss") {
        Some(x) => x,
        None => false,
    };
    let killed_grimm = match read_bool(v, "killedGrimm") {
        Some(x) => x,
        None => false,
    };
    let killed_nightmare_grimm = match read_bool(v, "killedNightmareGrimm") {
        Some(x) => x,
        None => false,
    };
    let killed_nail_bros = match read_bool(v, "killedNailBros") {
        Some(x) => x,
        None => false,
    };
    let killed_paintmaster = match read_bool(v, "killedPaintmaster") {
        Some(x) => x,
        None => false,
    };
    let killed_nailsage = match read_bool(v, "killedNailsage") {
        Some(x) => x,
        None => false,
    };
    let killed_hollow_knight_prime = match read_bool(v, "killedHollowKnightPrime") {
        Some(x) => x,
        None => false,
    };
    let false_knight_defeated = match read_bool(v, "falseKnightDefeated") {
        Some(x) => x,
        None => false,
    };
    let false_knight_dream_defeated = match read_bool(v, "falseKnightDreamDefeated") {
        Some(x) => x,
        None => false,
    };
    let hornet1_defeated = match read_bool(v, "hornet1Defeated") {
        Some(x) => x,
        None => false,
    };
    let hornet_outskirts_defeated = match read_bool(v, "hornetOutskirtsDefeated") {
        Some(x) => x,
        None => false,
    };
    let mage_lord_dream_defeated = match read_bool(v, "mageLordDreamDefeated") {
        Some(x) => x,
        None => false,
    };
    RecordSlice5 {
        killed_infected_knight,
        killed_black_knight,
        killed_mage_knight,
        killed_jar_collector,
        killed_flukeman,
        killed_mega_beam_miner,
        killed_mimic_spider,
        killed_hive_knight,
        killed_traitor_lord,
        killed_oblobble,
        killed_lobster_lancer,
        killed_hollow_knight,
        killed_final_boss,
        killed_grimm,
        killed_nightmare_grimm,
        killed_nail_bros,
        killed_paintmaster,
        killed_nailsage,
        killed_hollow_knight_prime,
        false_knight_defeated,
        false_knight_dream_defeated,
        hornet1_defeated,
        hornet_outskirts_defeated,
        mage_lord_dream_defeated,
    }
}

/// One stretch of the player-progress record's fields.
struct RecordSlice6 {
    infected_knight_dream_defeated: bool,
    white_defender_defeated: bool,
    grey_prince_defeated: bool,
    aladar_slug_defeated: u32,
    xero_defeated: u32,
    elder_hu_defeated: u32,
    mum_caterpillar_defeated: u32,
    no_eyes_defeated: u32,
    markoth_defeated: u32,
    galien_defeated: u32,
    vessel_frag_stag_nest: bool,
    defeated_mega_jelly: bool,
    defeated_mantis_lords: bool,
    mage_lord_defeated: bool,
    opened_love_door: bool,
    defeated_dung_defender: bool,
    got_grimm_notch: bool,
    boss_door_state_tier1: BossDoorStateTier,
    boss_door_state_tier2: BossDoorStateTier,
    boss_door_state_tier3: BossDoorStateTier,
    boss_door_state_tier4: BossDoorStateTier,
    boss_door_state_tier5: BossDoorStateTier,
    has_godfinder: bool,
    nymm_in_town: bool,
}

/// Every field of this stretch is present with its expected type.
spec fn slice6_ok(v: JsonVal) -> bool {
    &&& bool_at(v, "infectedKnightDreamDefeated"@) is Some
    &&& bool_at(v, "whiteDefenderDefeated"@) is Some
    &&& bool_at(v, "greyPrinceDefeated"@) is Some
    &&& level_at(v, "aladarSlugDefeated"@) is Some
    &&& level_at(v, "xeroDefeated"@) is Some
    &&& level_at(v, "elderHuDefeated"@) is Some
    &&& level_at(v, "mumCaterpillarDefeated"@) is Some
    &&& level_at(v, "noEyesDefeated"@) is Some
    &&& level_at(v, "markothDefeated"@) is Some
    &&& level_at(v, "galienDefeated"@) is Some
    &&& bool_at(v, "vesselFragStagNest"@) is Some
    &&& bool_at(v, "defeatedMegaJelly"@) is Some
    &&& bool_at(v, "defeatedMantisLords"@) is Some
    &&& bool_at(v, "mageLordDefeated"@) is Some
    &&& bool_at(v, "openedLoveDoor"@) is Some
    &&& bool_at(v, "defeatedDungDefender"@) is Some
    &&& bool_at(v, "gotGrimmNotch"@) is Some
    &&& tier_at(v, "bossDoorStateTier1"@) is Some
    &&& tier_at(v, "bossDoorStateTier2"@) is Some
    &&& tier_at(v, "bossDoorStateTier3"@) is Some
    &&& tier_at(v, "bossDoorStateTier4"@) is Some
    &&& tier_at(v, "bossDoorStateTier5"@) is Some
    &&& bool_at(v, "hasGodfinder"@) is Some
    &&& bool_at(v, "nymmInTown"@) is Some
}

/// The values this stretch of fields holds.
spec fn slice6_at(v: JsonVal) -> RecordSlice6 {
    RecordSlice6 {
        infected_knight_dream_defeated: bool_at(v, "infectedKnightDreamDefeated"@)->Some_0,
        white_defender_defeated: bool_at(v, "whiteDefenderDefeated"@)->Some_0,
        grey_prince_defeated: bool_at(v, "greyPrinceDefeated"@)->Some_0,
        aladar_slug_defeated: level_at(v, "aladarSlugDefeated"@)->Some_0,
        xero_defeated: level_at(v, "xeroDefeated"@)->Some_0,
        elder_hu_defeated: level_at(v, "elderHuDefeated"@)->Some_0,
        mum_caterpillar_defeated: level_at(v, "mumCaterpillarDefeated"@)->Some_0,
        no_eyes_defeated: level_at(v, "noEyesDefeated"@)->Some_0,
        markoth_defeated: level_at(v, "markothDefeated"@)->Some_0,
        galien_defeated: level_at(v, "galienDefeated"@)->Some_0,
        vessel_frag_stag_nest: bool_at(v, "vesselFragStagNest"@)->Some_0,
        defeated_mega_jelly: bool_at(v, "defeatedMegaJelly"@)->Some_0,
        defeated_mantis_lords: bool_at(v, "defeatedMantisLords"@)->Some_0,
        mage_lord_defeated: bool_at(v, "mageLordDefeated"@)->Some_0,
        opened_love_door: bool_at(v, "openedLoveDoor"@)->Some_0,
        defeated_dung_defender: bool_at(v, "defeatedDungDefender"@)->Some_0,
        got_grimm_notch: bool_at(v, "gotGrimmNotch"@)->Some_0,
        boss_door_state_tier1: BossDoorStateTier { completed: tier_at(v, "bossDoorStateTier1"@)->Some_0 },
        boss_door_state_tier2: BossDoorStateTier { completed: tier_at(v, "bossDoorStateTier2"@)->Some_0 },
        boss_door_state_tier3: BossDoorStateTier { completed: tier_at(v, "bossDoorStateTier3"@)->Some_0 },
        boss_door_state_tier4: BossDoorStateTier { completed: tier_at(v, "bossDoorStateTier4"@)->Some_0 },
        boss_door_state_tier5: BossDoorStateTier { completed: tier_at(v, "bossDoorStateTier5"@)->Some_0 },
        has_godfinder: bool_at(v, "hasGodfinder"@)->Some_0,
        nymm_in_town: bool_at(v, "nymmInTown"@)->Some_0,
    }
}

/// Checks that every field of this stretch is present and well-typed.
fn check_slice6(v: &JsonVal) -> (ok: bool)
    ensures
        ok == slice6_ok(*v),
{
    read_bool(v, "infectedKnightDreamDefeated").is_some()
        && read_bool(v, "whiteDefenderDefeated").is_some()
        && read_bool(v, "greyPrinceDefeated").is_some()
        && read_level(v, "aladarSlugDefeated").is_some()
        && read_level(v, "xeroDefeated").is_some()
        && read_level(v, "elderHuDefeated").is_some()
        && read_level(v, "mumCaterpillarDefeated").is_some()
        && read_level(v, "noEyesDefeated").is_some()
        && read_level(v, "markothDefeated").is_some()
        && read_level(v, "galienDefeated").is_some()
        && read_bool(v, "vesselFragStagNest").is_some()
        && read_bool(v, "defeatedMegaJelly").is_some()
        && read_bool(v, "defeatedMantisLords").is_some()
        && read_bool(v, "mageLordDefeated").is_some()
        && read_bool(v, "openedLoveDoor").is_some()
        && read_bool(v, "defeatedDungDefender").is_some()
        && read_bool(v, "gotGrimmNotch").is_some()
        && read_tier(v, "bossDoorStateTier1").is_some()
        && read_tier(v, "bossDoorStateTier2").is_some()
        && read_tier(v, "bossDoorStateTier3").is_some()
        && read_tier(v, "bossDoorStateTier4").is_some()
        && read_tier(v, "bossDoorStateTier5").is_some()
        && read_bool(v, "hasGodfinder").is_some()
        && read_bool(v, "nymmInTown").is_some()
}

/// Reads the values of this stretch, once it is known well-formed.
fn values_slice6(v: &JsonVal) -> (r: RecordSlice6)
    requires
        slice6_ok(*v),
    ensures
        r == slice6_at(*v),
{
    let infected_knight_dream_defeated = match read_bool(v, "infectedKnightDreamDefeated") {
        Some(x) => x,
        None => false,
    };
    let white_defender_defeated = match read_bool(v, "whiteDefenderDefeated") {
        Some(x) => x,
        None => false,
    };
    let grey_prince_defeated = match read_bool(v, "greyPrinceDefeated") {
        Some(x) => x,
        None => false,
    };
    let aladar_slug_defeated = match read_level(v, "aladarSlugDefeated") {
        Some(x) => x,
        None => 0,
    };
    let xero_defeated = match read_level(v, "xeroDefeated") {
        Some(x) => x,
        None => 0,
    };
    let elder_hu_defeated = match read_level(v, "elderHuDefeated") {
        Some(x) => x,
        None => 0,
    };
    let mum_caterpillar_defeated = match read_level(v, "mumCaterpillarDefeated") {
        Some(x) => x,
        None => 0,
    };
    let no_eyes_defeated = match read_level(v, "noEyesDefeated") {
        Some(x) => x,
        None => 0,
    };
    let markoth_defeated = match read_level(v, "markothDefeated") {
        Some(x) => x,
        None => 0,
    };
    let galien_defeated = match read_level(v, "galienDefeated") {
        Some(x) => x,
        None => 0,
    };
    let vessel_frag_stag_nest = match read_bool(v, "vesselFragStagNest") {
        Some(x) => x,
        None => false,
    };
    let defeated_mega_jelly = match read_bool(v, "defeatedMegaJelly") {
        Some(x) => x,
        None => false,
    };
    let defeated_mantis_lords = match read_bool(v, "defeatedMantisLords") {
        Some(x) => x,
        None => false,
    };
    let mage_lord_defeated = match read_bool(v, "mageLordDefeated") {
        Some(x) => x,
        None => false,
    };
    let opened_love_door = match read_bool(v, "openedLoveDoor") {
        Some(x) => x,
        None => false,
    };
    let defeated_dung_defender = match read_bool(v, "defeatedDungDefender") {
        Some(x) => x,
        None => false,
    };
    let got_grimm_notch = match read_bool(v, "gotGrimmNotch") {
        Some(x) => x,
        None => false,
    };
    let boss_door_state_tier1 = match read_tier(v, "bossDoorStateTier1") {
        Some(x) => x,
        None => BossDoorStateTier { completed: false },
    };
    let boss_door_state_tier2 = match read_tier(v, "bossDoorStateTier2") {
        Some(x) => x,
        None => BossDoorStateTier { completed: false },
    };
    let boss_door_state_tier3 = match read_tier(v, "bossDoorStateTier3") {
        Some(x) => x,
        None => BossDoorStateTier { completed: false },
    };
    let boss_door_state_tier4 = match read_tier(v, "bossDoorStateTier4") {
        Some(x) => x,
        None => BossDoorStateTier { completed: false },
    };
    let boss_door_state_tier5 = match read_tier(v, "bossDoorStateTier5") {
        Some(x) => x,
        None => BossDoorStateTier { completed: false },
    };
    let has_godfinder = match read_bool(v, "hasGodfinder") {
        Some(x) => x,
        None => false,
    };
    let nymm_in_town = match read_bool(v, "nymmInTown") {
        Some(x) => x,
        None => false,
    };
    RecordSlice6 {
        infected_knight_dream_defeated,
        white_defender_defeated,
        grey_prince_defeated,
        aladar_slug_defeated,
        xero_defeated,
        elder_hu_defeated,
        mum_caterpillar_defeated,
        no_eyes_defeated,
        markoth_defeated,
        galien_defeated,
        vessel_frag_stag_nest,
        defeated_mega_jelly,
        defeated_mantis_lords,
        mage_lord_defeated,
        opened_love_door,
        defeated_dung_defender,
        got_grimm_notch,
        boss_door_state_tier1,
        boss_door_state_tier2,
        boss_door_state_tier3,
        boss_door_state_tier4,
        boss_door_state_tier5,
        has_godfinder,
        nymm_in_town,
    }
}

/// Every field of the player-progress record is present in the document
/// with its expected type.
pub open spec fn player_data_ok(v: JsonVal) -> bool {
    &&& level_at(v, "fireballLevel"@) is Some
    &&& level_at(v, "quakeLevel"@) is Some
    &&& level_at(v, "screamLevel"@) is Some
    &&& bool_at(v, "hasCyclone"@) is Some
    &&& bool_at(v, "hasDashSlash"@) is Some
    &&& bool_at(v, "hasUpwardSlash"@) is Some
    &&& bool_at(v, "hasDreamNail"@) is Some
    &&& bool_at(v, "hasDreamGate"@) is Some
    &&& bool_at(v, "dreamNailUpgraded"@) is Some
    &&& bool_at(v, "hasDash"@) is Some
    &&& bool_at(v, "hasWalljump"@) is Some
    &&& bool_at(v, "hasSuperDash"@) is Some
    &&& bool_at(v, "hasShadowDash"@) is Some
    &&& bool_at(v, "hasAcidArmour"@) is Some
    &&& bool_at(v, "hasDoubleJump"@) is Some
    &&& bool_at(v, "hasLantern"@) is Some
    &&& bool_at(v, "hasTramPass"@) is Some
    &&& bool_at(v, "hasSlykey"@) is Some
    &&& bool_at(v, "gaveSlykey"@) is Some
    &&& bool_at(v, "hasWhiteKey"@) is Some
    &&& bool_at(v, "hasLoveKey"@) is Some
    &&& bool_at(v, "hasKingsBrand"@) is Some
    &&& bool_at(v, "notchShroomOgres"@) is Some
    &&& bool_at(v, "notchFogCanyon"@) is Some
    &&& bool_at(v, "gotLurkerKey"@) is Some
    &&& bool_at(v, "lurienDefeated"@) is Some
    &&& bool_at(v, "hegemolDefeated"@) is Some
    &&& bool_at(v, "monomonDefeated"@) is Some
    &&& bool_at(v, "slyShellFrag1"@) is Some
    &&& bool_at(v, "slyShellFrag2"@) is Some
    &&& bool_at(v, "slyShellFrag3"@) is Some
    &&& bool_at(v, "slyShellFrag4"@) is Some
    &&& bool_at(v, "slyVesselFrag1"@) is Some
    &&& bool_at(v, "slyVesselFrag2"@) is Some
    &&& bool_at(v, "slySimpleKey"@) is Some
    &&& bool_at(v, "mothDeparted"@) is Some
    &&& bool_at(v, "dreamReward1"@) is Some
    &&& bool_at(v, "dreamReward3"@) is Some
    &&& bool_at(v, "dreamReward5"@) is Some
    &&& bool_at(v, "dreamReward6"@) is Some
    &&& bool_at(v, "dreamReward7"@) is Some
    &&& bool_at(v, "salubraNotch1"@) is Some
    &&& bool_at(v, "salubraNotch2"@) is Some
    &&& bool_at(v, "salubraNotch3"@) is Some
    &&& bool_at(v, "salubraNotch4"@) is Some
    &&& level_at(v, "nailSmithUpgrades"@) is Some
    &&& bool_at(v, "xunFlowerGiven"@) is Some
    &&& bool_at(v, "colosseumBronzeCompleted"@) is Some
    &&& bool_at(v, "colosseumSilverCompleted"@) is Some
    &&& bool_at(v, "colosseumGoldCompleted"@) is Some
    &&& bool_at(v, "gotCharm_1"@) is Some
    &&& bool_at(v, "gotCharm_2"@) is Some
    &&& bool_at(v, "gotCharm_3"@) is Some
    &&& bool_at(v, "gotCharm_4"@) is Some
    &&& bool_at(v, "gotCharm_5"@) is Some
    &&& bool_at(v, "gotCharm_6"@) is Some
    &&& bool_at(v, "gotCharm_7"@) is Some
    &&& bool_at(v, "gotCharm_8"@) is Some
    &&& bool_at(v, "gotCharm_9"@) is Some
    &&& bool_at(v, "gotCharm_10"@) is Some
    &&& bool_at(v, "gotCharm_11"@) is Some
    &&& bool_at(v, "gotCharm_12"@) is Some
    &&& bool_at(v, "gotCharm_13"@) is Some
    &&& bool_at(v, "gotCharm_14"@) is Some
    &&& bool_at(v, "gotCharm_15"@) is Some
    &&& bool_at(v, "gotCharm_16"@) is Some
    &&& bool_at(v, "gotCharm_17"@) is Some
    &&& bool_at(v, "gotCharm_18"@) is Some
    &&& bool_at(v, "gotCharm_19"@) is Some
    &&& bool_at(v, "gotCharm_20"@) is Some
    &&& bool_at(v, "gotCharm_21"@) is Some
    &&& bool_at(v, "gotCharm_22"@) is Some
    &&& bool_at(v, "gotCharm_23"@) is Some
    &&& bool_at(v, "gotCharm_24"@) is Some
    &&& bool_at(v, "gotCharm_25"@) is Some
    &&& bool_at(v, "gotCharm_26"@) is Some
    &&& bool_at(v, "gotCharm_27"@) is Some
    &&& bool_at(v, "gotCharm_28"@) is Some
    &&& bool_at(v, "gotCharm_29"@) is Some
    &&& bool_at(v, "gotCharm_30"@) is Some
    &&& bool_at(v, "gotCharm_31"@) is Some
    &&& bool_at(v, "gotCharm_32"@) is Some
    &&& bool_at(v, "gotCharm_33"@) is Some
    &&& bool_at(v, "gotCharm_34"@) is Some
    &&& bool_at(v, "gotCharm_35"@) is Some
    &&& bool_at(v, "gotCharm_36"@) is Some
    &&& bool_at(v, "gotCharm_37"@) is Some
    &&& bool_at(v, "gotCharm_38"@) is Some
    &&& bool_at(v, "gotCharm_39"@) is Some
    &&& bool_at(v, "gotCharm_40"@) is Some
    &&& bool_at(v, "gotKingFragment"@) is Some
    &&& bool_at(v, "gotQueenFragment"@) is Some
    &&& bool_at(v, "killedBigBuzzer"@) is Some
    &&& bool_at(v, "killedBigFly"@) is Some
    &&& bool_at(v, "killedMawlek"@) is Some
    &&& bool_at(v, "killedMegaMossCharger"@) is Some
    &&& bool_at(v, "killedInfectedKnight"@) is Some
    &&& bool_at(v, "killedBlackKnight"@) is Some
    &&& bool_at(v, "killedMageKnight"@) is Some
    &&& bool_at(v, "killedJarCollector"@) is Some
    &&& bool_at(v, "killedFlukeman"@) is Some
    &&& bool_at(v, "killedMegaBeamMiner"@) is Some
    &&& bool_at(v, "killedMimicSpider"@) is Some
    &&& bool_at(v, "killedHiveKnight"@) is Some
    &&& bool_at(v, "killedTraitorLord"@) is Some
    &&& bool_at(v, "killedOblobble"@) is Some
    &&& bool_at(v, "killedLobsterLancer"@) is Some
    &&& bool_at(v, "killedHollowKnight"@) is Some
    &&& bool_at(v, "killedFinalBoss"@) is Some
    &&& bool_at(v, "killedGrimm"@) is Some
    &&& bool_at(v, "killedNightmareGrimm"@) is Some
    &&& bool_at(v, "killedNailBros"@) is Some
    &&& bool_at(v, "killedPaintmaster"@) is Some
    &&& bool_at(v, "killedNailsage"@) is Some
    &&& bool_at(v, "killedHollowKnightPrime"@) is Some
    &&& bool_at(v, "falseKnightDefeated"@) is Some
    &&& bool_at(v, "falseKnightDreamDefeated"@) is Some
    &&& bool_at(v, "hornet1Defeated"@) is Some
    &&& bool_at(v, "hornetOutskirtsDefeated"@) is Some
    &&& bool_at(v, "mageLordDreamDefeated"@) is Some
    &&& bool_at(v, "infectedKnightDreamDefeated"@) is Some
    &&& bool_at(v, "whiteDefenderDefeated"@) is Some
    &&& bool_at(v, "greyPrinceDefeated"@) is Some
    &&& level_at(v, "aladarSlugDefeated"@) is Some
    &&& level_at(v, "xeroDefeated"@) is Some
    &&& level_at(v, "elderHuDefeated"@) is Some
    &&& level_at(v, "mumCaterpillarDefeated"@) is Some
    &&& level_at(v, "noEyesDefeated"@) is Some
    &&& level_at(v, "markothDefeated"@) is Some
    &&& level_at(v, "galienDefeated"@) is Some
    &&& bool_at(v, "vesselFragStagNest"@) is Some
    &&& bool_at(v, "defeatedMegaJelly"@) is Some
    &&& bool_at(v, "defeatedMantisLords"@) is Some
    &&& bool_at(v, "mageLordDefeated"@) is Some
    &&& bool_at(v, "openedLoveDoor"@) is Some
    &&& bool_at(v, "defeatedDungDefender"@) is Some
    &&& bool_at(v, "gotGrimmNotch"@) is Some
    &&& tier_at(v, "bossDoorStateTier1"@) is Some
    &&& tier_at(v, "bossDoorStateTier2"@) is Some
    &&& tier_at(v, "bossDoorStateTier3"@) is Some
    &&& tier_at(v, "bossDoorStateTier4"@) is Some
    &&& tier_at(v, "bossDoorStateTier5"@) is Some
    &&& bool_at(v, "hasGodfinder"@) is Some
    &&& bool_at(v, "nymmInTown"@) is Some
}

/// The player-progress record a document holds, assuming every field is
/// present with its expected type.
pub open spec fn player_data_at(v: JsonVal) -> PlayedData {
    PlayedData {
        fireball_level: level_at(v, "fireballLevel"@)->Some_0,
        quake_level: level_at(v, "quakeLevel"@)->Some_0,
        scream_level: level_at(v, "screamLevel"@)->Some_0,
        has_cyclone: bool_at(v, "hasCyclone"@)->Some_0,
        has_dash_slash: bool_at(v, "hasDashSlash"@)->Some_0,
        has_upward_slash: bool_at(v, "hasUpwardSlash"@)->Some_0,
        has_dream_nail: bool_at(v, "hasDreamNail"@)->Some_0,
        has_dream_gate: bool_at(v, "hasDreamGate"@)->Some_0,
        dream_nail_upgraded: bool_at(v, "dreamNailUpgraded"@)->Some_0,
        has_dash: bool_at(v, "hasDash"@)->Some_0,
        has_walljump: bool_at(v, "hasWalljump"@)->Some_0,
        has_super_dash: bool_at(v, "hasSuperDash"@)->Some_0,
        has_shadow_dash: bool_at(v, "hasShadowDash"@)->Some_0,
        has_acid_armour: bool_at(v, "hasAcidArmour"@)->Some_0,
        has_double_jump: bool_at(v, "hasDoubleJump"@)->Some_0,
        has_lantern: bool_at(v, "hasLantern"@)->Some_0,
        has_tram_pass: bool_at(v, "hasTramPass"@)->Some_0,
        has_slykey: bool_at(v, "hasSlykey"@)->Some_0,
        gave_slykey: bool_at(v, "gaveSlykey"@)->Some_0,
        has_white_key: bool_at(v, "hasWhiteKey"@)->Some_0,
        has_love_key: bool_at(v, "hasLoveKey"@)->Some_0,
        has_kings_brand: bool_at(v, "hasKingsBrand"@)->Some_0,
        notch_shroom_ogres: bool_at(v, "notchShroomOgres"@)->Some_0,
        notch_fog_canyon: bool_at(v, "notchFogCanyon"@)->Some_0,
        got_lurker_key: bool_at(v, "gotLurkerKey"@)->Some_0,
        lurien_defeated: bool_at(v, "lurienDefeated"@)->Some_0,
        hegemol_defeated: bool_at(v, "hegemolDefeated"@)->Some_0,
        monomon_defeated: bool_at(v, "monomonDefeated"@)->Some_0,
        sly_shell_frag1: bool_at(v, "slyShellFrag1"@)->Some_0,
        sly_shell_frag2: bool_at(v, "slyShellFrag2"@)->Some_0,
        sly_shell_frag3: bool_at(v, "slyShellFrag3"@)->Some_0,
        sly_shell_frag4: bool_at(v, "slyShellFrag4"@)->Some_0,
        sly_vessel_frag1: bool_at(v, "slyVesselFrag1"@)->Some_0,
        sly_vessel_frag2: bool_at(v, "slyVesselFrag2"@)->Some_0,
        sly_simple_key: bool_at(v, "slySimpleKey"@)->Some_0,
        moth_departed: bool_at(v, "mothDeparted"@)->Some_0,
        dream_reward1: bool_at(v, "dreamReward1"@)->Some_0,
        dream_reward3: bool_at(v, "dreamReward3"@)->Some_0,
        dream_reward5: bool_at(v, "dreamReward5"@)->Some_0,
        dream_reward6: bool_at(v, "dreamReward6"@)->Some_0,
        dream_reward7: bool_at(v, "dreamReward7"@)->Some_0,
        salubra_notch1: bool_at(v, "salubraNotch1"@)->Some_0,
        salubra_notch2: bool_at(v, "salubraNotch2"@)->Some_0,
        salubra_notch3: bool_at(v, "salubraNotch3"@)->Some_0,
        salubra_notch4: bool_at(v, "salubraNotch4"@)->Some_0,
        nail_smith_upgrades: level_at(v, "nailSmithUpgrades"@)->Some_0,
        xun_flower_given: bool_at(v, "xunFlowerGiven"@)->Some_0,
        colosseum_bronze_completed: bool_at(v, "colosseumBronzeCompleted"@)->Some_0,
        colosseum_silver_completed: bool_at(v, "colosseumSilverCompleted"@)->Some_0,
        colosseum_gold_completed: bool_at(v, "colosseumGoldCompleted"@)->Some_0,
        got_charm_1: bool_at(v, "gotCharm_1"@)->Some_0,
        got_charm_2: bool_at(v, "gotCharm_2"@)->Some_0,
        got_charm_3: bool_at(v, "gotCharm_3"@)->Some_0,
        got_charm_4: bool_at(v, "gotCharm_4"@)->Some_0,
        got_charm_5: bool_at(v, "gotCharm_5"@)->Some_0,
        got_charm_6: bool_at(v, "gotCharm_6"@)->Some_0,
        got_charm_7: bool_at(v, "gotCharm_7"@)->Some_0,
        got_charm_8: bool_at(v, "gotCharm_8"@)->Some_0,
        got_charm_9: bool_at(v, "gotCharm_9"@)->Some_0,
        got_charm_10: bool_at(v, "gotCharm_10"@)->Some_0,
        got_charm_11: bool_at(v, "gotCharm_11"@)->Some_0,
        got_charm_12: bool_at(v, "gotCharm_12"@)->Some_0,
        got_charm_13: bool_at(v, "gotCharm_13"@)->Some_0,
        got_charm_14: bool_at(v, "gotCharm_14"@)->Some_0,
        got_charm_15: bool_at(v, "gotCharm_15"@)->Some_0,
        got_charm_16: bool_at(v, "gotCharm_16"@)->Some_0,
        got_charm_17: bool_at(v, "gotCharm_17"@)->Some_0,
        got_charm_18: bool_at(v, "gotCharm_18"@)->Some_0,
        got_charm_19: bool_at(v, "gotCharm_19"@)->Some_0,
        got_charm_20: bool_at(v, "gotCharm_20"@)->Some_0,
        got_charm_21: bool_at(v, "gotCharm_21"@)->Some_0,
        got_charm_22: bool_at(v, "gotCharm_22"@)->Some_0,
        got_charm_23: bool_at(v, "gotCharm_23"@)->Some_0,
        got_charm_24: bool_at(v, "gotCharm_24"@)->Some_0,
        got_charm_25: bool_at(v, "gotCharm_25"@)->Some_0,
        got_charm_26: bool_at(v, "gotCharm_26"@)->Some_0,
        got_charm_27: bool_at(v, "gotCharm_27"@)->Some_0,
        got_charm_28: bool_at(v, "gotCharm_28"@)->Some_0,
        got_charm_29: bool_at(v, "gotCharm_29"@)->Some_0,
        got_charm_30: bool_at(v, "gotCharm_30"@)->Some_0,
        got_charm_31: bool_at(v, "gotCharm_31"@)->Some_0,
        got_charm_32: bool_at(v, "gotCharm_32"@)->Some_0,
        got_charm_33: bool_at(v, "gotCharm_33"@)->Some_0,
        got_charm_34: bool_at(v, "gotCharm_34"@)->Some_0,
        got_charm_35: bool_at(v, "gotCharm_35"@)->Some_0,
        got_charm_36: bool_at(v, "gotCharm_36"@)->Some_0,
        got_charm_37: bool_at(v, "gotCharm_37"@)->Some_0,
        got_charm_38: bool_at(v, "gotCharm_38"@)->Some_0,
        got_charm_39: bool_at(v, "gotCharm_39"@)->Some_0,
        got_charm_40: bool_at(v, "gotCharm_40"@)->Some_0,
        got_king_fragment: bool_at(v, "gotKingFragment"@)->Some_0,
        got_queen_fragment: bool_at(v, "gotQueenFragment"@)->Some_0,
        killed_big_buzzer: bool_at(v, "killedBigBuzzer"@)->Some_0,
        killed_big_fly: bool_at(v, "killedBigFly"@)->Some_0,
        killed_mawlek: bool_at(v, "killedMawlek"@)->Some_0,
        killed_mega_moss_charger: bool_at(v, "killedMegaMossCharger"@)->Some_0,
        killed_infected_knight: bool_at(v, "killedInfectedKnight"@)->Some_0,
        killed_black_knight: bool_at(v, "killedBlackKnight"@)->Some_0,
        killed_mage_knight: bool_at(v, "killedMageKnight"@)->Some_0,
        killed_jar_collector: bool_at(v, "killedJarCollector"@)->Some_0,
        killed_flukeman: bool_at(v, "killedFlukeman"@)->Some_0,
        killed_mega_beam_miner: bool_at(v, "killedMegaBeamMiner"@)->Some_0,
        killed_mimic_spider: bool_at(v, "killedMimicSpider"@)->Some_0,
        killed_hive_knight: bool_at(v, "killedHiveKnight"@)->Some_0,
        killed_traitor_lord: bool_at(v, "killedTraitorLord"@)->Some_0,
        killed_oblobble: bool_at(v, "killedOblobble"@)->Some_0,
        killed_lobster_lancer: bool_at(v, "killedLobsterLancer"@)->Some_0,
        killed_hollow_knight: bool_at(v, "killedHollowKnight"@)->Some_0,
        killed_final_boss: bool_at(v, "killedFinalBoss"@)->Some_0,
        killed_grimm: bool_at(v, "killedGrimm"@)->Some_0,
        killed_nightmare_grimm: bool_at(v, "killedNightmareGrimm"@)->Some_0,
        killed_nail_bros: bool_at(v, "killedNailBros"@)->Some_0,
        killed_paintmaster: bool_at(v, "killedPaintmaster"@)->Some_0,
        killed_nailsage: bool_at(v, "killedNailsage"@)->Some_0,
        killed_hollow_knight_prime: bool_at(v, "killedHollowKnightPrime"@)->Some_0,
        false_knight_defeated: bool_at(v, "falseKnightDefeated"@)->Some_0,
        false_knight_dream_defeated: bool_at(v, "falseKnightDreamDefeated"@)->Some_0,
        hornet1_defeated: bool_at(v, "hornet1Defeated"@)->Some_0,
        hornet_outskirts_defeated: bool_at(v, "hornetOutskirtsDefeated"@)->Some_0,
        mage_lord_dream_defeated: bool_at(v, "mageLordDreamDefeated"@)->Some_0,
        infected_knight_dream_defeated: bool_at(v, "infectedKnightDreamDefeated"@)->Some_0,
        white_defender_defeated: bool_at(v, "whiteDefenderDefeated"@)->Some_0,
        grey_prince_defeated: bool_at(v, "greyPrinceDefeated"@)->Some_0,
        aladar_slug_defeated: level_at(v, "aladarSlugDefeated"@)->Some_0,
        xero_defeated: level_at(v, "xeroDefeated"@)->Some_0,
        elder_hu_defeated: level_at(v, "elderHuDefeated"@)->Some_0,
        mum_caterpillar_defeated: level_at(v, "mumCaterpillarDefeated"@)->Some_0,
        no_eyes_defeated: level_at(v, "noEyesDefeated"@)->Some_0,
        markoth_defeated: level_at(v, "markothDefeated"@)->Some_0,
        galien_defeated: level_at(v, "galienDefeated"@)->Some_0,
        vessel_frag_stag_nest: bool_at(v, "vesselFragStagNest"@)->Some_0,
        defeated_mega_jelly: bool_at(v, "defeatedMegaJelly"@)->Some_0,
        defeated_mantis_lords: bool_at(v, "defeatedMantisLords"@)->Some_0,
        mage_lord_defeated: bool_at(v, "mageLordDefeated"@)->Some_0,
        opened_love_door: bool_at(v, "openedLoveDoor"@)->Some_0,
        defeated_dung_defender: bool_at(v, "defeatedDungDefender"@)->Some_0,
        got_grimm_notch: bool_at(v, "gotGrimmNotch"@)->Some_0,
        boss_door_state_tier1: BossDoorStateTier { completed: tier_at(v, "bossDoorStateTier1"@)->Some_0 },
        boss_door_state_tier2: BossDoorStateTier { completed: tier_at(v, "bossDoorStateTier2"@)->Some_0 },
        boss_door_state_tier3: BossDoorStateTier { completed: tier_at(v, "bossDoorStateTier3"@)->Some_0 },
        boss_door_state_tier4: BossDoorStateTier { completed: tier_at(v, "bossDoorStateTier4"@)->Some_0 },
        boss_door_state_tier5: BossDoorStateTier { completed: tier_at(v, "bossDoorStateTier5"@)->Some_0 },
        has_godfinder: bool_at(v, "hasGodfinder"@)->Some_0,
        nymm_in_town: bool_at(v, "nymmInTown"@)->Some_0,
    }
}

/// Extracts the player-progress record from its document object, failing
/// exactly when some field is missing or has the wrong type.
#[verifier::rlimit(100)]
pub fn extract_player_data(v: &JsonVal) -> (r: Result<PlayedData, ParseError>)
    ensures
        match r {
            Ok(pd) => player_data_ok(*v) && pd == player_data_at(*v),
            Err(e) => !player_data_ok(*v) && e is DeserializationError,
        },
{
    if !check_slice1(v) {
        return Err(schema_err());
    }
    if !check_slice2(v) {
        return Err(schema_err());
    }
    if !check_slice3(v) {
        return Err(schema_err());
    }
    if !check_slice4(v) {
        return Err(schema_err());
    }
    if !check_slice5(v) {
        return Err(schema_err());
    }
    if !check_slice6(v) {
        return Err(schema_err());
    }
    let s1 = values_slice1(v);
    let s2 = values_slice2(v);
    let s3 = values_slice3(v);
    let s4 = values_slice4(v);
    let s5 = values_slice5(v);
    let s6 = values_slice6(v);
    Ok(PlayedData {
        fireball_level: s1.fireball_level,
        quake_level: s1.quake_level,
        scream_level: s1.scream_level,
        has_cyclone: s1.has_cyclone,
        has_dash_slash: s1.has_dash_slash,
        has_upward_slash: s1.has_upward_slash,
        has_dream_nail: s1.has_dream_nail,
        has_dream_gate: s1.has_dream_gate,
        dream_nail_upgraded: s1.dream_nail_upgraded,
        has_dash: s1.has_dash,
        has_walljump: s1.has_walljump,
        has_super_dash: s1.has_super_dash,
        has_shadow_dash: s1.has_shadow_dash,
        has_acid_armour: s1.has_acid_armour,
        has_double_jump: s1.has_double_jump,
        has_lantern: s1.has_lantern,
        has_tram_pass: s1.has_tram_pass,
        has_slykey: s1.has_slykey,
        gave_slykey: s1.gave_slykey,
        has_white_key: s1.has_white_key,
        has_love_key: s1.has_love_key,
        has_kings_brand: s1.has_kings_brand,
        notch_shroom_ogres: s1.notch_shroom_ogres,
        notch_fog_canyon: s1.notch_fog_canyon,
        got_lurker_key: s2.got_lurker_key,
        lurien_defeated: s2.lurien_defeated,
        hegemol_defeated: s2.hegemol_defeated,
        monomon_defeated: s2.monomon_defeated,
        sly_shell_frag1: s2.sly_shell_frag1,
        sly_shell_frag2: s2.sly_shell_frag2,
        sly_shell_frag3: s2.sly_shell_frag3,
        sly_shell_frag4: s2.sly_shell_frag4,
        sly_vessel_frag1: s2.sly_vessel_frag1,
        sly_vessel_frag2: s2.sly_vessel_frag2,
        sly_simple_key: s2.sly_simple_key,
        moth_departed: s2.moth_departed,
        dream_reward1: s2.dream_reward1,
        dream_reward3: s2.dream_reward3,
        dream_reward5: s2.dream_reward5,
        dream_reward6: s2.dream_reward6,
        dream_reward7: s2.dream_reward7,
        salubra_notch1: s2.salubra_notch1,
        salubra_notch2: s2.salubra_notch2,
        salubra_notch3: s2.salubra_notch3,
        salubra_notch4: s2.salubra_notch4,
        nail_smith_upgrades: s2.nail_smith_upgrades,
        xun_flower_given: s2.xun_flower_given,
        colosseum_bronze_completed: s2.colosseum_bronze_completed,
        colosseum_silver_completed: s3.colosseum_silver_completed,
        colosseum_gold_completed: s3.colosseum_gold_completed,
        got_charm_1: s3.got_charm_1,
        got_charm_2: s3.got_charm_2,
        got_charm_3: s3.got_charm_3,
        got_charm_4: s3.got_charm_4,
        got_charm_5: s3.got_charm_5,
        got_charm_6: s3.got_charm_6,
        got_charm_7: s3.got_charm_7,
        got_charm_8: s3.got_charm_8,
        got_charm_9: s3.got_charm_9,
        got_charm_10: s3.got_charm_10,
        got_charm_11: s3.got_charm_11,
        got_charm_12: s3.got_charm_12,
        got_charm_13: s3.got_charm_13,
        got_charm_14: s3.got_charm_14,
        got_charm_15: s3.got_charm_15,
        got_charm_16: s3.got_charm_16,
        got_charm_17: s3.got_charm_17,
        got_charm_18: s3.got_charm_18,
        got_charm_19: s3.got_charm_19,
        got_charm_20: s3.got_charm_20,
        got_charm_21: s3.got_charm_21,
        got_charm_22: s3.got_charm_22,
        got_charm_23: s4.got_charm_23,
        got_charm_24: s4.got_charm_24,
        got_charm_25: s4.got_charm_25,
        got_charm_26: s4.got_charm_26,
        got_charm_27: s4.got_charm_27,
        got_charm_28: s4.got_charm_28,
        got_charm_29: s4.got_charm_29,
        got_charm_30: s4.got_charm_30,
        got_charm_31: s4.got_charm_31,
        got_charm_32: s4.got_charm_32,
        got_charm_33: s4.got_charm_33,
        got_charm_34: s4.got_charm_34,
        got_charm_35: s4.got_charm_35,
        got_charm_36: s4.got_charm_36,
        got_charm_37: s4.got_charm_37,
        got_charm_38: s4.got_charm_38,
        got_charm_39: s4.got_charm_39,
        got_charm_40: s4.got_charm_40,
        got_king_fragment: s4.got_king_fragment,
        got_queen_fragment: s4.got_queen_fragment,
        killed_big_buzzer: s4.killed_big_buzzer,
        killed_big_fly: s4.killed_big_fly,
        killed_mawlek: s4.killed_mawlek,
        killed_mega_moss_charger: s4.killed_mega_moss_charger,
        killed_infected_knight: s5.killed_infected_knight,
        killed_black_knight: s5.killed_black_knight,
        killed_mage_knight: s5.killed_mage_knight,
        killed_jar_collector: s5.killed_jar_collector,
        killed_flukeman: s5.killed_flukeman,
        killed_mega_beam_miner: s5.killed_mega_beam_miner,
        killed_mimic_spider: s5.killed_mimic_spider,
        killed_hive_knight: s5.killed_hive_knight,
        killed_traitor_lord: s5.killed_traitor_lord,
        killed_oblobble: s5.killed_oblobble,
        killed_lobster_lancer: s5.killed_lobster_lancer,
        killed_hollow_knight: s5.killed_hollow_knight,
        killed_final_boss: s5.killed_final_boss,
        killed_grimm: s5.killed_grimm,
        killed_nightmare_grimm: s5.killed_nightmare_grimm,
        killed_nail_bros: s5.killed_nail_bros,
        killed_paintmaster: s5.killed_paintmaster,
        killed_nailsage: s5.killed_nailsage,
        killed_hollow_knight_prime: s5.killed_hollow_knight_prime,
        false_knight_defeated: s5.false_knight_defeated,
        false_knight_dream_defeated: s5.false_knight_dream_defeated,
        hornet1_defeated: s5.hornet1_defeated,
        hornet_outskirts_defeated: s5.hornet_outskirts_defeated,
        mage_lord_dream_defeated: s5.mage_lord_dream_defeated,
        infected_knight_dream_defeated: s6.infected_knight_dream_defeated,
        white_defender_defeated: s6.white_defender_defeated,
        grey_prince_defeated: s6.grey_prince_defeated,
        aladar_slug_defeated: s6.aladar_slug_defeated,
        xero_defeated: s6.xero_defeated,
        elder_hu_defeated: s6.elder_hu_defeated,
        mum_caterpillar_defeated: s6.mum_caterpillar_defeated,
        no_eyes_defeated: s6.no_eyes_defeated,
        markoth_defeated: s6.markoth_defeated,
        galien_defeated: s6.galien_defeated,
        vessel_frag_stag_nest: s6.vessel_frag_stag_nest,
        defeated_mega_jelly: s6.defeated_mega_jelly,
        defeated_mantis_lords: s6.defeated_mantis_lords,
        mage_lord_defeated: s6.mage_lord_defeated,
        opened_love_door: s6.opened_love_door,
        defeated_dung_defender: s6.defeated_dung_defender,
        got_grimm_notch: s6.got_grimm_notch,
        boss_door_state_tier1: s6.boss_door_state_tier1,
        boss_door_state_tier2: s6.boss_door_state_tier2,
        boss_door_state_tier3: s6.boss_door_state_tier3,
        boss_door_state_tier4: s6.boss_door_state_tier4,
        boss_door_state_tier5: s6.boss_door_state_tier5,
        has_godfinder: s6.has_godfinder,
        nymm_in_town: s6.nymm_in_town,
    })
}

/// Builds the deserialization error for a document that does not match the
/// save schema.
fn schema_err() -> (e: ParseError)
    ensures
        e is DeserializationError,
{
    ParseError::DeserializationError(
        String::from_str("a required save field is missing or has the wrong type"),
    )
}

/// One scene-event record: whether a specific interactable in a specific
/// scene has been activated. Multiple entries may share an event id across
/// scenes; an entry is identified by (scene name, event id).
#[derive(Debug)]
pub struct SceneObjectBool {
    pub id: String,
    pub scene_name: String,
    pub activated: bool,
}

/// Mathematical model of one scene-event record.
pub struct SceneObjectBoolV {
    pub id: Seq<char>,
    pub scene_name: Seq<char>,
    pub activated: bool,
}

impl View for SceneObjectBool {
    type V = SceneObjectBoolV;

    open spec fn view(&self) -> SceneObjectBoolV {
        SceneObjectBoolV {
            id: self.id@,
            scene_name: self.scene_name@,
            activated: self.activated,
        }
    }
}

/// The scene-event log: an ordered sequence of scene-event records, queried
/// by (scene name, event id) rather than by position.
#[derive(Debug)]
pub struct SceneData {
    pub persistent_bool_items: Vec<SceneObjectBool>,
}

impl View for SceneData {
    type V = Seq<SceneObjectBoolV>;

    open spec fn view(&self) -> Seq<SceneObjectBoolV> {
        self.persistent_bool_items@.map(|i: int, e: SceneObjectBool| e@)
    }
}

/// The typed content of one scene-event document entry, when it carries the
/// expected "id", "sceneName" and "activated" fields.
pub open spec fn scene_item_of(e: JsonVal) -> Option<SceneObjectBoolV> {
    if str_at(e, "id"@) is Some && str_at(e, "sceneName"@) is Some && bool_at(e, "activated"@)
        is Some {
        Some(
            SceneObjectBoolV {
                id: str_at(e, "id"@)->Some_0,
                scene_name: str_at(e, "sceneName"@)->Some_0,
                activated: bool_at(e, "activated"@)->Some_0,
            },
        )
    } else {
        None
    }
}

/// Every entry of the scene-event array is well-formed.
pub open spec fn scenes_ok(a: Seq<JsonVal>) -> bool {
    forall|i: int| 0 <= i < a.len() ==> #[trigger] scene_item_of(a[i]) is Some
}

/// The scene-event records an array of well-formed entries holds, in order.
pub open spec fn scenes_at(a: Seq<JsonVal>) -> Seq<SceneObjectBoolV> {
    Seq::new(a.len(), |i: int| scene_item_of(a[i])->Some_0)
}

/// Extracts one scene-event record from its document entry.
fn extract_scene_item(e: &JsonVal) -> (r: Option<SceneObjectBool>)
    ensures
        match r {
            Some(s) => scene_item_of(*e) == Some(s@),
            None => scene_item_of(*e) is None,
        },
{
    let id = match read_string(e, "id") {
        Some(x) => x,
        None => {
            return None;
        },
    };
    let scene_name = match read_string(e, "sceneName") {
        Some(x) => x,
        None => {
            return None;
        },
    };
    let activated = match read_bool(e, "activated") {
        Some(x) => x,
        None => {
            return None;
        },
    };
    Some(SceneObjectBool { id, scene_name, activated })
}

/// Extracts the scene-event log from its document array, failing exactly
/// when some entry is malformed.
fn extract_scenes(a: &Vec<JsonVal>) -> (r: Result<SceneData, ParseError>)
    ensures
        match r {
            Ok(sd) => scenes_ok(a@) && sd@ == scenes_at(a@),
            Err(e) => !scenes_ok(a@) && e is DeserializationError,
        },
{
    let mut items: Vec<SceneObjectBool> = Vec::new();
    let mut i: usize = 0;
    while i < a.len()
        invariant
            i <= a@.len(),
            items@.len() == i,
            forall|j: int| 0 <= j < i ==> #[trigger] scene_item_of(a@[j]) is Some,
            forall|j: int|
                0 <= j < i ==> items@[j]@ == #[trigger] scene_item_of(a@[j])->Some_0,
        decreases a@.len() - i,
    {
        match extract_scene_item(&a[i]) {
            Some(s) => {
                items.push(s);
            },
            None => {
                proof {
                    assert(!(scene_item_of(a@[i as int]) is Some));
                }
                return Err(schema_err());
            },
        }
        i = i + 1;
    }
    let sd = SceneData { persistent_bool_items: items };
    proof {
        assert(sd@ =~= scenes_at(a@));
    }
    Ok(sd)
}

/// The raw save: the player-progress record and the scene-event log.
#[derive(Debug)]
pub struct SaveFile {
    pub player_data: PlayedData,
    pub scene_data: SceneData,
}

/// Mathematical model of a raw save.
pub struct SaveFileV {
    pub player_data: PlayedData,
    pub scenes: Seq<SceneObjectBoolV>,
}

impl View for SaveFile {
    type V = SaveFileV;

    open spec fn view(&self) -> SaveFileV {
        SaveFileV { player_data: self.player_data, scenes: self.scene_data@ }
    }
}

/// The raw save a document holds: a "playerData" object whose record is
/// complete and well-typed, and a "sceneData" object whose
/// "persistentBoolItems" array holds well-formed scene events.
pub open spec fn save_of(doc: JsonVal) -> Option<SaveFileV> {
    let pd = field_of(doc, "playerData"@);
    let sd = field_of(doc, "sceneData"@);
    if pd is Some && player_data_ok(pd->Some_0) && sd is Some && arr_at(
        sd->Some_0,
        "persistentBoolItems"@,
    ) is Some && scenes_ok(arr_at(sd->Some_0, "persistentBoolItems"@)->Some_0) {
        Some(
            SaveFileV {
                player_data: player_data_at(pd->Some_0),
                scenes: scenes_at(arr_at(sd->Some_0, "persistentBoolItems"@)->Some_0),
            },
        )
    } else {
        None
    }
}

/// Parses a document into the raw save representation, failing exactly when
/// the document does not match the save schema.
pub fn extract_save(doc: &JsonVal) -> (r: Result<SaveFile, ParseError>)
    ensures
        match r {
            Ok(s) => save_of(*doc) == Some(s@),
            Err(e) => save_of(*doc) is None && e is DeserializationError,
        },
{
    let pd_doc = match get_field(doc, "playerData") {
        Some(f) => f,
        None => {
            return Err(schema_err());
        },
    };
    let sd_doc = match get_field(doc, "sceneData") {
        Some(f) => f,
        None => {
            return Err(schema_err());
        },
    };
    let arr = match get_arr(sd_doc, "persistentBoolItems") {
        Some(a) => a,
        None => {
            return Err(schema_err());
        },
    };
    let player_data = match extract_player_data(pd_doc) {
        Ok(p) => p,
        Err(e) => {
            return Err(e);
        },
    };
    let scene_data = match extract_scenes(arr) {
        Ok(s) => s,
        Err(e) => {
            return Err(e);
        },
    };
    Ok(SaveFile { player_data, scene_data })
}

/// The raw save representation with its game-variant tag made explicit.
#[derive(Debug)]
pub enum RawSave {
    HollowKnight(SaveFile),
    Silksong(SaveFile),
}

/// Mathematical model of a tagged raw save.
pub enum RawSaveV {
    HollowKnight(SaveFileV),
    Silksong(SaveFileV),
}

impl View for RawSave {
    type V = RawSaveV;

    open spec fn view(&self) -> RawSaveV {
        match self {
            RawSave::HollowKnight(s) => RawSaveV::HollowKnight(s@),
            RawSave::Silksong(s) => RawSaveV::Silksong(s@),
        }
    }
}

/// Chooses the game variant by trial schema match: the primary variant's
/// schema is tried first, with the second variant's schema as the fallback.
/// The two variants' document schemas coincide, so a document that fails
/// the primary schema fails the fallback too and is reported as a
/// deserialization failure.
pub fn detect_variant(doc: &JsonVal) -> (r: Result<RawSave, ParseError>)
    ensures
        match r {
            Ok(rs) => save_of(*doc) is Some && rs@ == RawSaveV::HollowKnight(
                save_of(*doc)->Some_0,
            ),
            Err(e) => save_of(*doc) is None && e is DeserializationError,
        },
{
    match extract_save(doc) {
        Ok(s) => Ok(RawSave::HollowKnight(s)),
        Err(e) => Err(e),
    }
}

} // verus!
