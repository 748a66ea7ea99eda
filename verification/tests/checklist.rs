//! End-to-end tests: synthetic save files are framed, encrypted and
//! encoded the same way the game writes them, then decoded through the
//! library, and the resulting checklists are checked entry by entry.

use aes::Aes256;
use aes::cipher::BlockModeEncrypt;
use aes::cipher::KeyInit;
use aes::cipher::block_padding::Pkcs7;
use base64::Engine;

use hollow_knight_save_parser::ParseError;
use hollow_knight_save_parser::checks::GameSer;
use hollow_knight_save_parser::checks::HollowKnightChecks;
use hollow_knight_save_parser::json::parse_json;
use hollow_knight_save_parser::mapper::map_checklist;
use hollow_knight_save_parser::parser::Parser;
use hollow_knight_save_parser::save::RawSave;
use hollow_knight_save_parser::save::extract_save;

const KEY: &[u8; 32] = b"UKu52ePUBwetZ9wNX88o54dnfKRu0T1l";

const PROLOGUE: [u8; 22] = [
    0x00, 0x01, 0x00, 0x00, 0x00, 0xff, 0xff, 0xff, 0xff, 0x01, 0x00, 0x00, 0x00, 0x00, 0x00,
    0x00, 0x00, 0x06, 0x01, 0x00, 0x00, 0x00,
];

const BOOL_KEYS: &[&str] = &[
    "hasCyclone",
    "hasDashSlash",
    "hasUpwardSlash",
    "hasDreamNail",
    "hasDreamGate",
    "dreamNailUpgraded",
    "hasDash",
    "hasWalljump",
    "hasSuperDash",
    "hasShadowDash",
    "hasAcidArmour",
    "hasDoubleJump",
    "hasLantern",
    "hasTramPass",
    "hasSlykey",
    "gaveSlykey",
    "hasWhiteKey",
    "hasLoveKey",
    "hasKingsBrand",
    "notchShroomOgres",
    "notchFogCanyon",
    "gotLurkerKey",
    "lurienDefeated",
    "hegemolDefeated",
    "monomonDefeated",
    "slyShellFrag1",
    "slyShellFrag2",
    "slyShellFrag3",
    "slyShellFrag4",
    "slyVesselFrag1",
    "slyVesselFrag2",
    "slySimpleKey",
    "mothDeparted",
    "dreamReward1",
    "dreamReward3",
    "dreamReward5",
    "dreamReward6",
    "dreamReward7",
    "salubraNotch1",
    "salubraNotch2",
    "salubraNotch3",
    "salubraNotch4",
    "xunFlowerGiven",
    "colosseumBronzeCompleted",
    "colosseumSilverCompleted",
    "colosseumGoldCompleted",
    "gotCharm_1",
    "gotCharm_2",
    "gotCharm_3",
    "gotCharm_4",
    "gotCharm_5",
    "gotCharm_6",
    "gotCharm_7",
    "gotCharm_8",
    "gotCharm_9",
    "gotCharm_10",
    "gotCharm_11",
    "gotCharm_12",
    "gotCharm_13",
    "gotCharm_14",
    "gotCharm_15",
    "gotCharm_16",
    "gotCharm_17",
    "gotCharm_18",
    "gotCharm_19",
    "gotCharm_20",
    "gotCharm_21",
    "gotCharm_22",
    "gotCharm_23",
    "gotCharm_24",
    "gotCharm_25",
    "gotCharm_26",
    "gotCharm_27",
    "gotCharm_28",
    "gotCharm_29",
    "gotCharm_30",
    "gotCharm_31",
    "gotCharm_32",
    "gotCharm_33",
    "gotCharm_34",
    "gotCharm_35",
    "gotCharm_36",
    "gotCharm_37",
    "gotCharm_38",
    "gotCharm_39",
    "gotCharm_40",
    "gotKingFragment",
    "gotQueenFragment",
    "killedBigBuzzer",
    "killedBigFly",
    "killedMawlek",
    "killedMegaMossCharger",
    "killedInfectedKnight",
    "killedBlackKnight",
    "killedMageKnight",
    "killedJarCollector",
    "killedFlukeman",
    "killedMegaBeamMiner",
    "killedMimicSpider",
    "killedHiveKnight",
    "killedTraitorLord",
    "killedOblobble",
    "killedLobsterLancer",
    "killedHollowKnight",
    "killedFinalBoss",
    "killedGrimm",
    "killedNightmareGrimm",
    "killedNailBros",
    "killedPaintmaster",
    "killedNailsage",
    "killedHollowKnightPrime",
    "falseKnightDefeated",
    "falseKnightDreamDefeated",
    "hornet1Defeated",
    "hornetOutskirtsDefeated",
    "mageLordDreamDefeated",
    "infectedKnightDreamDefeated",
    "whiteDefenderDefeated",
    "greyPrinceDefeated",
    "vesselFragStagNest",
    "defeatedMegaJelly",
    "defeatedMantisLords",
    "mageLordDefeated",
    "openedLoveDoor",
    "defeatedDungDefender",
    "gotGrimmNotch",
    "hasGodfinder",
    "nymmInTown",
];

const NUM_KEYS: &[&str] = &[
    "fireballLevel",
    "quakeLevel",
    "screamLevel",
    "nailSmithUpgrades",
    "aladarSlugDefeated",
    "xeroDefeated",
    "elderHuDefeated",
    "mumCaterpillarDefeated",
    "noEyesDefeated",
    "markothDefeated",
    "galienDefeated",
];

const TIER_KEYS: &[&str] = &[
    "bossDoorStateTier1",
    "bossDoorStateTier2",
    "bossDoorStateTier3",
    "bossDoorStateTier4",
    "bossDoorStateTier5",
];

/// Builds the plaintext save document with every field present: booleans
/// false, levels "0.0" and pantheons incomplete except where overridden.
fn save_json(
    bools_true: &[&str],
    levels: &[(&str, &str)],
    scenes: &[(&str, &str, bool)],
) -> String {
    let mut pd = String::new();
    for k in BOOL_KEYS {
        let v = if bools_true.contains(k) { "true" } else { "false" };
        pd.push_str(&format!("\"{k}\":{v},"));
    }
    for k in NUM_KEYS {
        let v = levels
            .iter()
            .find(|(n, _)| n == k)
            .map(|(_, v)| *v)
            .unwrap_or("0.0");
        pd.push_str(&format!("\"{k}\":{v},"));
    }
    for k in TIER_KEYS {
        pd.push_str(&format!("\"{k}\":{{\"completed\":false}},"));
    }
    pd.pop();
    let mut sd = String::new();
    for (scene, id, act) in scenes {
        sd.push_str(&format!(
            "{{\"id\":\"{id}\",\"sceneName\":\"{scene}\",\"activated\":{act}}},"
        ));
    }
    sd.pop();
    format!(
        "{{\"playerData\":{{{pd}}},\"sceneData\":{{\"persistentBoolItems\":[{sd}]}}}}"
    )
}

/// Encrypts, encodes and frames plaintext bytes as a raw save file.
fn frame(plain: &[u8]) -> Vec<u8> {
    let msg_len = plain.len();
    let mut buf = vec![0u8; (msg_len / 16 + 1) * 16];
    buf[..msg_len].copy_from_slice(plain);
    let ct = ecb::Encryptor::<Aes256>::new(KEY.into())
        .encrypt_padded::<Pkcs7>(&mut buf, msg_len)
        .unwrap()
        .to_vec();
    let b64 = base64::engine::general_purpose::STANDARD.encode(&ct);
    frame_payload(b64.as_bytes())
}

/// Frames an already-encoded payload: prologue, a non-ASCII length run, one
/// ASCII closing byte, the payload, and the trailing sentinel.
fn frame_payload(payload: &[u8]) -> Vec<u8> {
    let mut data = PROLOGUE.to_vec();
    data.extend_from_slice(&[0x83, 0x91]);
    data.push(0x2a);
    data.extend_from_slice(payload);
    data.push(0x11);
    data
}

fn decode(data: &[u8]) -> Result<HollowKnightChecks, ParseError> {
    let mut p = Parser::new();
    p.parse_save_file(data)?;
    match p.get_map() {
        GameSer::HollowKnight(c) => Ok(c),
        GameSer::Silksong(_) => panic!("unexpected variant"),
    }
}

fn entry(c: &[(String, bool)], label: &str) -> bool {
    c.iter().find(|(l, _)| l == label).expect("label missing").1
}

#[test]
fn empty_save_decodes_with_all_flags_false() {
    let data = frame(save_json(&[], &[], &[("Town", "Door", false)]).as_bytes());
    let c = decode(&data).unwrap();
    assert_eq!(c.bosses.entries.len(), 16);
    for (_, v) in &c.bosses.entries {
        assert!(!v);
    }
}

#[test]
fn decoding_twice_yields_identical_checklists() {
    let data = frame(
        save_json(&["killedGrimm", "hasDash"], &[("nailSmithUpgrades", "2.0")], &[
            ("Crossroads_09", "Heart Piece", true),
        ])
        .as_bytes(),
    );
    let mut p1 = Parser::new();
    let mut p2 = Parser::new();
    p1.parse_save_file(&data).unwrap();
    p2.parse_save_file(&data).unwrap();
    assert_eq!(p1.get_map(), p2.get_map());
}

#[test]
fn short_buffer_fails_with_malformed_header() {
    let mut p = Parser::new();
    let r = p.parse_save_file(&[0u8; 10]);
    assert!(matches!(r, Err(ParseError::MalformedHeader)));
}

#[test]
fn missing_separator_fails_with_malformed_header() {
    let mut data = PROLOGUE.to_vec();
    data.extend_from_slice(&[0x80, 0x81, 0x82]);
    data.push(0x11);
    let mut p = Parser::new();
    assert!(matches!(p.parse_save_file(&data), Err(ParseError::MalformedHeader)));
}

#[test]
fn invalid_base64_fails_and_retains_previous_checklist() {
    let good = frame(save_json(&["killedGrimm"], &[], &[("Town", "Door", true)]).as_bytes());
    let mut p = Parser::new();
    p.parse_save_file(&good).unwrap();
    let before = p.get_map();
    let bad = frame_payload(b"!!!not-base64!!!");
    let r = p.parse_save_file(&bad);
    assert!(matches!(r, Err(ParseError::Base64DecodeError(_))));
    assert_eq!(p.get_map(), before);
}

#[test]
fn bad_block_length_fails_with_decryption_error() {
    let b64 = base64::engine::general_purpose::STANDARD.encode(b"short");
    let data = frame_payload(b64.as_bytes());
    let mut p = Parser::new();
    assert!(matches!(p.parse_save_file(&data), Err(ParseError::DecryptionError(_))));
}

#[test]
fn invalid_document_fails_with_deserialization_error() {
    let data = frame(b"this is not a structured document");
    let mut p = Parser::new();
    assert!(matches!(p.parse_save_file(&data), Err(ParseError::DeserializationError(_))));
}

#[test]
fn missing_field_fails_with_deserialization_error() {
    let data = frame(b"{\"playerData\":{},\"sceneData\":{\"persistentBoolItems\":[]}}");
    let mut p = Parser::new();
    assert!(matches!(p.parse_save_file(&data), Err(ParseError::DeserializationError(_))));
}

#[test]
fn nail_level_two_marks_first_two_tiers() {
    let data = frame(
        save_json(&[], &[("nailSmithUpgrades", "2.0")], &[("Town", "Door", false)]).as_bytes(),
    );
    let c = decode(&data).unwrap();
    let nail: Vec<bool> = c.nail.entries.iter().map(|(_, v)| *v).collect();
    assert_eq!(nail, vec![true, true, false, false]);
}

#[test]
fn nail_level_zero_marks_no_tiers() {
    let data = frame(save_json(&[], &[], &[("Town", "Door", false)]).as_bytes());
    let c = decode(&data).unwrap();
    let nail: Vec<bool> = c.nail.entries.iter().map(|(_, v)| *v).collect();
    assert_eq!(nail, vec![false, false, false, false]);
}

#[test]
fn integer_level_form_is_accepted() {
    let data = frame(
        save_json(&[], &[("quakeLevel", "1")], &[("Town", "Door", false)]).as_bytes(),
    );
    let c = decode(&data).unwrap();
    assert!(entry(&c.spells.entries, "[Desolate Dive]"));
    assert!(!entry(&c.spells.entries, "[Descending Dark]"));
}

#[test]
fn fractional_level_is_rejected() {
    let data = frame(
        save_json(&[], &[("quakeLevel", "2.5")], &[("Town", "Door", false)]).as_bytes(),
    );
    let mut p = Parser::new();
    assert!(matches!(p.parse_save_file(&data), Err(ParseError::DeserializationError(_))));
}

#[test]
fn mawlek_heart_piece_marks_exactly_one_mask_shard() {
    let data = frame(
        save_json(&[], &[], &[("Crossroads_09", "Heart Piece", true)]).as_bytes(),
    );
    let c = decode(&data).unwrap();
    for (label, v) in &c.mask_shards.entries {
        if label == "[Forgotten Crossroads] [Brooding Mawlek]" {
            assert!(v);
        } else {
            assert!(!v);
        }
    }
}

#[test]
fn deactivated_scene_event_does_not_count() {
    let data = frame(
        save_json(&[], &[], &[("Crossroads_09", "Heart Piece", false)]).as_bytes(),
    );
    let c = decode(&data).unwrap();
    assert!(!entry(&c.mask_shards.entries, "[Forgotten Crossroads] [Brooding Mawlek]"));
}

#[test]
fn kingsoul_requires_all_three_flags() {
    let all = ["gotCharm_36", "gotKingFragment", "gotQueenFragment"];
    let scenes = [("Town", "Door", false)];
    let data = frame(save_json(&all, &[], &scenes).as_bytes());
    let c = decode(&data).unwrap();
    assert!(entry(&c.charms.entries, "[Kingsoul] / [Void Heart]"));
    for missing in 0..3 {
        let partial: Vec<&str> = all
            .iter()
            .enumerate()
            .filter(|(i, _)| *i != missing)
            .map(|(_, k)| *k)
            .collect();
        let data = frame(save_json(&partial, &[], &scenes).as_bytes());
        let c = decode(&data).unwrap();
        assert!(!entry(&c.charms.entries, "[Kingsoul] / [Void Heart]"));
    }
}

#[test]
fn boss_category_keeps_declared_label_order() {
    let data = frame(save_json(&[], &[], &[("Town", "Door", false)]).as_bytes());
    let c = decode(&data).unwrap();
    let labels: Vec<&str> = c.bosses.entries.iter().map(|(l, _)| l.as_str()).collect();
    assert_eq!(labels, vec![
        "[Broken Vessel]",
        "[Brooding Mawlek]",
        "[The Collector]",
        "[Dung Defender]",
        "[False Knight]",
        "[Grimm]",
        "[Gruz Mother]",
        "[Hive Knight]",
        "[Hornet Protector]",
        "[Hornet Sentinel]",
        "[Mantis Lords]",
        "[Nosk]",
        "[Soul Master]",
        "[Traitor Lord]",
        "[Uumuu]",
        "[Watcher Knight]",
    ]);
    assert_eq!(c.charms.entries.len(), 40);
    assert_eq!(c.charms.entries[0].0, "[Wayward Compass]");
    assert_eq!(c.charms.entries[39].0, "[Kingsoul] / [Void Heart]");
}

#[test]
fn direct_flag_reads_mark_their_entries() {
    let data = frame(
        save_json(&["killedGrimm", "hasSuperDash", "hornet1Defeated"], &[], &[(
            "Town", "Door", false,
        )])
        .as_bytes(),
    );
    let c = decode(&data).unwrap();
    assert!(entry(&c.bosses.entries, "[Grimm]"));
    assert!(entry(&c.bosses.entries, "[Hornet Protector]"));
    assert!(entry(&c.equipment.entries, "[Crystal Heart]"));
    assert!(!entry(&c.bosses.entries, "[False Knight]"));
}

#[test]
fn second_variant_save_is_reported_unsupported() {
    let plain = save_json(&[], &[], &[("Town", "Door", false)]);
    let doc = parse_json(plain.as_bytes()).unwrap();
    let save = extract_save(&doc).unwrap();
    let r = map_checklist(&RawSave::Silksong(save));
    assert!(matches!(r, Err(ParseError::UnsupportedVariant)));
}

