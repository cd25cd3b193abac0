use lcu_data::json::{get_bool_lit, DecodeError, JsonNumber, JsonValue};
use lcu_data::active::{decode_active_player_option, ResourceType};
use lcu_data::classify::{DragonType, Killer, Turret};
use lcu_data::events::{
    decode_events, decode_game_event, unwrap_event_envelope, GameEvent, GameResult,
};
use lcu_data::player::{decode_player_item, Position};
use lcu_data::runes::decode_rune;
use lcu_data::runes::Rune;
use lcu_data::snapshot::AllGameData;
use lcu_data::stats::{decode_game_stats, GameMode, MapName, MapTerrain};
use lcu_data::team::TeamId;

fn jint(i: i64) -> JsonValue {
    JsonValue::Num(JsonNumber { int_val: Some(i), bits: (i as f64).to_bits() })
}

fn jf(x: f64) -> JsonValue {
    JsonValue::Num(JsonNumber { int_val: None, bits: x.to_bits() })
}

fn js(s: &str) -> JsonValue {
    JsonValue::Str(s.to_string())
}

fn jb(b: bool) -> JsonValue {
    JsonValue::Bool(b)
}

fn jobj(fields: Vec<(&str, JsonValue)>) -> JsonValue {
    JsonValue::Obj(fields.into_iter().map(|(k, v)| (k.to_string(), v)).collect())
}

fn jarr(items: Vec<JsonValue>) -> JsonValue {
    JsonValue::Arr(items)
}

fn fields_of(v: JsonValue) -> Vec<(String, JsonValue)> {
    match v {
        JsonValue::Obj(o) => o,
        _ => panic!("not an object"),
    }
}

#[test]
fn bool_literal_true_false() {
    let f = fields_of(jobj(vec![("Stolen", js("True"))]));
    assert_eq!(get_bool_lit(&f, "Stolen"), Ok(true));
    let f = fields_of(jobj(vec![("Stolen", js("False"))]));
    assert_eq!(get_bool_lit(&f, "Stolen"), Ok(false));
}

#[test]
fn bool_literal_other_is_invalid_encoding() {
    let f = fields_of(jobj(vec![("Stolen", js("Maybe"))]));
    assert_eq!(
        get_bool_lit(&f, "Stolen"),
        Err(DecodeError::InvalidBoolEncoding("Maybe".to_string()))
    );
}

#[test]
fn envelope_accepts_any_single_key() {
    let v = jobj(vec![("fooBar123", jarr(vec![js("x"), js("y")]))]);
    let inner = unwrap_event_envelope(&v).unwrap();
    assert_eq!(inner.len(), 2);
    assert_eq!(inner[0], js("x"));
    assert_eq!(inner[1], js("y"));
}

#[test]
fn envelope_rejects_zero_or_two_keys() {
    let v = jobj(vec![]);
    assert_eq!(
        unwrap_event_envelope(&v).unwrap_err(),
        DecodeError::MalformedEventEnvelope
    );
    let v = jobj(vec![("a", jarr(vec![])), ("b", jarr(vec![]))]);
    assert_eq!(
        unwrap_event_envelope(&v).unwrap_err(),
        DecodeError::MalformedEventEnvelope
    );
}

fn game_start_json(id: i64, time: f64) -> JsonValue {
    jobj(vec![
        ("EventID", jint(id)),
        ("EventName", js("GameStart")),
        ("EventTime", jf(time)),
    ])
}

#[test]
fn events_decode_in_order_with_uniform_projections() {
    let v = jobj(vec![(
        "Events",
        jarr(vec![game_start_json(0, 0.0), game_start_json(1, 0.25)]),
    )]);
    let evs = decode_events(&v).unwrap();
    assert_eq!(evs.len(), 2);
    assert_eq!(evs[0].get_event_id(), 0);
    assert_eq!(evs[1].get_event_id(), 1);
    assert_eq!(f64::from_bits(evs[1].get_event_time()), 0.25);
}

#[test]
fn champion_kill_event_decodes() {
    let v = jobj(vec![
        ("Assisters", jarr(vec![js("A"), js("B")])),
        ("EventID", jint(5)),
        ("EventName", js("ChampionKill")),
        ("EventTime", jf(300.25)),
        ("KillerName", js("SRU_Gromp")),
        ("VictimName", js("Bob")),
    ]);
    match decode_game_event(&v).unwrap() {
        GameEvent::ChampionKill(e) => {
            assert_eq!(e.assisters, vec!["A".to_string(), "B".to_string()]);
            assert_eq!(e.event_id, 5);
            assert_eq!(f64::from_bits(e.event_time), 300.25);
            assert_eq!(e.killer_name, Killer::Gromp);
            assert_eq!(e.victim_name, "Bob".to_string());
        }
        other => panic!("wrong variant: {:?}", other),
    }
}

#[test]
fn unknown_discriminant_is_rejected() {
    let v = jobj(vec![
        ("EventID", jint(1)),
        ("EventName", js("SpaceLaser")),
        ("EventTime", jf(1.0)),
    ]);
    assert_eq!(
        decode_game_event(&v).unwrap_err(),
        DecodeError::SchemaMismatch("EventName".to_string())
    );
}

#[test]
fn unexpected_event_field_is_rejected() {
    let v = jobj(vec![
        ("EventID", jint(1)),
        ("EventName", js("GameStart")),
        ("EventTime", jf(1.0)),
        ("Surprise", jint(9)),
    ]);
    assert_eq!(
        decode_game_event(&v).unwrap_err(),
        DecodeError::SchemaMismatch("Surprise".to_string())
    );
}

#[test]
fn dragon_kill_event_strict_dragon_and_stolen() {
    let mk = |dragon: &str, stolen: &str| {
        jobj(vec![
            ("Assisters", jarr(vec![])),
            ("DragonType", js(dragon)),
            ("EventID", jint(2)),
            ("EventName", js("DragonKill")),
            ("EventTime", jf(10.0)),
            ("KillerName", js("Hide on bush")),
            ("Stolen", js(stolen)),
        ])
    };
    match decode_game_event(&mk("Elder", "False")).unwrap() {
        GameEvent::DragonKill(e) => {
            assert!(matches!(e.dragon_type, DragonType::Elder));
            assert!(!e.stolen);
            assert_eq!(e.killer_name, Killer::Summoner("Hide on bush".to_string()));
        }
        other => panic!("wrong variant: {:?}", other),
    }
    assert_eq!(
        decode_game_event(&mk("Banana", "False")).unwrap_err(),
        DecodeError::DragonDecodeFailure("Banana".to_string())
    );
    assert_eq!(
        decode_game_event(&mk("Elder", "Maybe")).unwrap_err(),
        DecodeError::InvalidBoolEncoding("Maybe".to_string())
    );
}

#[test]
fn game_end_event_result() {
    let v = jobj(vec![
        ("EventID", jint(9)),
        ("EventName", js("GameEnd")),
        ("EventTime", jf(1800.0)),
        ("Result", js("Win")),
    ]);
    match decode_game_event(&v).unwrap() {
        GameEvent::GameEnd(e) => assert!(matches!(e.result, GameResult::Win)),
        other => panic!("wrong variant: {:?}", other),
    }
}

#[test]
fn turret_killed_event_classifies_turret() {
    let v = jobj(vec![
        ("Assisters", jarr(vec![])),
        ("EventID", jint(3)),
        ("EventName", js("TurretKilled")),
        ("EventTime", jf(500.0)),
        ("KillerName", js("Minion_Classic_Melee")),
        ("TurretKilled", js("Turret_T1_C_01_A")),
    ]);
    match decode_game_event(&v).unwrap() {
        GameEvent::TurretKilled(e) => {
            assert!(matches!(e.turret_killed, Turret::Team1C01A));
            assert_eq!(e.killer_name, Killer::Minion);
        }
        other => panic!("wrong variant: {:?}", other),
    }
}

fn game_stats_json() -> JsonValue {
    jobj(vec![
        ("gameMode", js("CLASSIC")),
        ("gameTime", jf(120.5)),
        ("mapName", js("Map11")),
        ("mapNumber", jint(11)),
        ("mapTerrain", js("Default")),
    ])
}

#[test]
fn game_stats_decode() {
    let g = decode_game_stats(&fields_of(game_stats_json())).unwrap();
    assert_eq!(g.game_mode, GameMode::Classic);
    assert_eq!(f64::from_bits(g.game_time), 120.5);
    assert_eq!(g.map_name, MapName::Map11);
    assert_eq!(g.map_number, 11);
    assert_eq!(g.map_terrain, MapTerrain::Default);
}

#[test]
fn game_stats_unexpected_field_rejected() {
    let mut f = fields_of(game_stats_json());
    f.push(("weather".to_string(), js("rain")));
    assert_eq!(
        decode_game_stats(&f).unwrap_err(),
        DecodeError::SchemaMismatch("weather".to_string())
    );
}

#[test]
fn game_stats_missing_field_rejected() {
    let f = fields_of(jobj(vec![("gameMode", js("CLASSIC"))]));
    assert_eq!(
        decode_game_stats(&f).unwrap_err(),
        DecodeError::SchemaMismatch("gameTime".to_string())
    );
}

#[test]
fn game_stats_round_trip_preserves_fields() {
    let g = lcu_data::stats::GameStats {
        game_mode: GameMode::NexusBlitz,
        game_time: 99.75f64.to_bits(),
        map_name: MapName::Map21,
        map_number: 21,
        map_terrain: MapTerrain::Chemtech,
    };
    let v = g.to_json();
    let back = decode_game_stats(&fields_of(v)).unwrap();
    assert_eq!(back, g);
}

#[test]
fn enum_literals_classify_back() {
    assert_eq!(GameMode::from_str(GameMode::Urf.as_literal()), GameMode::Urf);
    assert_eq!(GameMode::from_str(GameMode::Unknown.as_literal()), GameMode::Unknown);
    assert_eq!(MapName::from_str(MapName::Unknown.as_literal()), MapName::Unknown);
    assert!(matches!(
        MapTerrain::from_str(MapTerrain::Ocean.as_literal()),
        Ok(MapTerrain::Ocean)
    ));
}

#[test]
fn player_scores_round_trip_preserves_fields() {
    let s = lcu_data::player::PlayerScores {
        kills: 3,
        deaths: 1,
        assists: 2,
        creep_score: 100,
        ward_score: 12.25f64.to_bits(),
    };
    let v = s.to_json();
    let back = lcu_data::player::decode_player_scores(&fields_of(v)).unwrap();
    assert_eq!(back, s);
}

#[test]
fn rune_round_trip_preserves_fields() {
    let r = Rune {
        display_name: "Electrocute".to_string(),
        id: 8112,
        raw_description: "rd".to_string(),
        raw_display_name: "rdn".to_string(),
    };
    let v = r.to_json();
    let back = decode_rune(&fields_of(v)).unwrap();
    assert_eq!(back, r);
}

#[test]
fn stat_rune_round_trip_preserves_fields() {
    let r = lcu_data::runes::StatRune { id: 5008, raw_description: "rd".to_string() };
    let v = r.to_json();
    let back = lcu_data::runes::decode_stat_rune(&fields_of(v)).unwrap();
    assert_eq!(back, r);
}

#[test]
fn game_start_round_trip_through_dispatch() {
    let e = lcu_data::events::GameStart { event_id: 0, event_time: 0.0f64.to_bits() };
    let v = e.to_json();
    match decode_game_event(&v).unwrap() {
        GameEvent::GameStart(back) => assert_eq!(back, e),
        other => panic!("wrong variant: {:?}", other),
    }
}

fn item_json(with_alias: bool, with_both: bool) -> JsonValue {
    let mut fs = vec![
        ("canUse", jb(true)),
        ("consumable", jb(false)),
        ("count", jint(1)),
        ("displayName", js("Doran's Blade")),
    ];
    if with_alias || with_both {
        fs.push(("itemID", jint(1055)));
    }
    if !with_alias || with_both {
        fs.push(("itemId", jint(1055)));
    }
    fs.push(("price", jint(450)));
    fs.push(("rawDescription", js("rd")));
    fs.push(("rawDisplayName", js("rdn")));
    fs.push(("slot", jint(0)));
    jobj(fs)
}

#[test]
fn item_id_alias_accepted() {
    let a = decode_player_item(&fields_of(item_json(true, false))).unwrap();
    let b = decode_player_item(&fields_of(item_json(false, false))).unwrap();
    assert_eq!(a.item_id, 1055);
    assert_eq!(a, b);
}

#[test]
fn item_id_under_both_names_rejected() {
    assert_eq!(
        decode_player_item(&fields_of(item_json(false, true))).unwrap_err(),
        DecodeError::SchemaMismatch("itemId".to_string())
    );
}

fn ability_json(level: i64, name: &str) -> JsonValue {
    jobj(vec![
        ("abilityLevel", jint(level)),
        ("displayName", js(name)),
        ("id", js("id")),
        ("rawDescription", js("rd")),
        ("rawDisplayName", js("rdn")),
    ])
}

fn passive_json() -> JsonValue {
    jobj(vec![
        ("displayName", js("P")),
        ("id", js("p")),
        ("rawDescription", js("rd")),
        ("rawDisplayName", js("rdn")),
    ])
}

fn abilities_json() -> JsonValue {
    jobj(vec![
        ("E", ability_json(1, "E")),
        ("Passive", passive_json()),
        ("Q", ability_json(2, "Q")),
        ("R", ability_json(3, "R")),
        ("W", ability_json(4, "W")),
    ])
}

fn champion_stats_json() -> JsonValue {
    let keys = [
        "abilityHaste",
        "abilityPower",
        "armor",
        "armorPenetrationFlat",
        "armorPenetrationPercent",
        "attackDamage",
        "attackRange",
        "attackSpeed",
        "bonusArmorPenetrationPercent",
        "bonusMagicPenetrationPercent",
        "critChance",
        "critDamage",
        "currentHealth",
        "healShieldPower",
        "healthRegenRate",
        "lifeSteal",
        "magicLethality",
        "magicPenetrationFlat",
        "magicPenetrationPercent",
        "magicResist",
        "maxHealth",
        "moveSpeed",
        "omnivamp",
        "physicalLethality",
        "physicalVamp",
        "resourceMax",
        "resourceRegenRate",
        "resourceValue",
        "spellVamp",
        "tenacity",
    ];
    let mut fs: Vec<(&str, JsonValue)> = Vec::new();
    for (i, k) in keys.iter().enumerate() {
        fs.push((k, jf(i as f64 + 0.5)));
    }
    fs.push(("resourceType", js("MANA")));
    jobj(fs)
}

fn rune_json(id: i64) -> JsonValue {
    jobj(vec![
        ("displayName", js("rune")),
        ("id", jint(id)),
        ("rawDescription", js("rd")),
        ("rawDisplayName", js("rdn")),
    ])
}

fn stat_rune_json(id: i64) -> JsonValue {
    jobj(vec![("id", jint(id)), ("rawDescription", js("rd"))])
}

fn full_runes_json() -> JsonValue {
    jobj(vec![
        ("generalRunes", jarr(vec![rune_json(1), rune_json(2)])),
        ("keystone", rune_json(3)),
        ("primaryRuneTree", rune_json(4)),
        ("secondaryRuneTree", rune_json(5)),
        ("statRunes", jarr(vec![stat_rune_json(6)])),
    ])
}

fn active_player_json() -> JsonValue {
    jobj(vec![
        ("abilities", abilities_json()),
        ("championStats", champion_stats_json()),
        ("currentGold", jf(500.5)),
        ("fullRunes", full_runes_json()),
        ("level", jint(7)),
        ("summonerName", js("Me")),
        ("teamRelativeColors", jb(true)),
    ])
}

#[test]
fn active_player_error_shape_resolves_to_none() {
    let v = jobj(vec![("error", js("spectator mode is enabled"))]);
    assert_eq!(decode_active_player_option(&v).unwrap(), None);
}

#[test]
fn active_player_populated_shape_resolves_to_some() {
    let a = decode_active_player_option(&active_player_json()).unwrap().unwrap();
    assert_eq!(a.level, 7);
    assert_eq!(a.summoner_name, "Me".to_string());
    assert!(a.team_relative_colors);
    assert_eq!(f64::from_bits(a.current_gold), 500.5);
    assert_eq!(a.abilities.q.ability_level, 2);
    assert_eq!(a.runes.keystone.id, 3);
    assert_eq!(a.runes.general_runes.len(), 2);
    assert_eq!(a.runes.stat_runes[0].id, 6);
    assert_eq!(a.champion_stats.resource_type, ResourceType::Mana);
    assert_eq!(f64::from_bits(a.champion_stats.ability_haste), 0.5);
    assert_eq!(f64::from_bits(a.champion_stats.tenacity), 29.5);
}

#[test]
fn active_player_unexpected_field_rejected() {
    let mut f = fields_of(active_player_json());
    f.push(("petName".to_string(), js("Willump")));
    assert_eq!(
        decode_active_player_option(&JsonValue::Obj(f)).unwrap_err(),
        DecodeError::SchemaMismatch("petName".to_string())
    );
}

fn player_runes_json() -> JsonValue {
    jobj(vec![
        ("keystone", rune_json(3)),
        ("primaryRuneTree", rune_json(4)),
        ("secondaryRuneTree", rune_json(5)),
    ])
}

fn scores_json() -> JsonValue {
    jobj(vec![
        ("assists", jint(2)),
        ("creepScore", jint(100)),
        ("deaths", jint(1)),
        ("kills", jint(3)),
        ("wardScore", jf(12.25)),
    ])
}

fn spell_json(name: &str) -> JsonValue {
    jobj(vec![
        ("displayName", js(name)),
        ("rawDescription", js("rd")),
        ("rawDisplayName", js("rdn")),
    ])
}

fn player_json() -> JsonValue {
    jobj(vec![
        ("championName", js("Nunu")),
        ("isBot", jb(false)),
        ("isDead", jb(false)),
        ("items", jarr(vec![item_json(true, false)])),
        ("level", jint(6)),
        ("position", js("TOP")),
        ("rawChampionName", js("game_character_displayname_Nunu")),
        ("respawnTimer", jf(0.0)),
        ("runes", player_runes_json()),
        ("scores", scores_json()),
        ("skinID", jint(0)),
        ("summonerName", js("Other")),
        (
            "summonerSpells",
            jobj(vec![
                ("summonerSpellOne", spell_json("Flash")),
                ("summonerSpellTwo", spell_json("Smite")),
            ]),
        ),
        ("team", js("ORDER")),
    ])
}

#[test]
fn full_document_decodes_end_to_end() {
    let doc = jobj(vec![
        ("activePlayer", jobj(vec![("error", js("spectating"))])),
        ("allPlayers", jarr(vec![player_json()])),
        ("events", jobj(vec![("Events", jarr(vec![game_start_json(0, 0.0)]))])),
        ("gameData", game_stats_json()),
    ]);
    let snap = AllGameData::from_json(&doc).unwrap();
    assert!(snap.active_player.is_none());
    assert_eq!(snap.all_players.len(), 1);
    let p = &snap.all_players[0];
    assert_eq!(p.champion_name, "Nunu".to_string());
    assert_eq!(p.position, Position::Top);
    assert_eq!(p.team, TeamId::Order);
    assert_eq!(p.skin_id, 0);
    assert_eq!(p.raw_skin_name, None);
    assert_eq!(p.skin_name, None);
    assert_eq!(p.items[0].item_id, 1055);
    assert_eq!(p.scores.kills, 3);
    assert_eq!(snap.events.len(), 1);
    assert_eq!(snap.events[0].get_event_id(), 0);
    assert_eq!(snap.game_data.map_name, MapName::Map11);
}

#[test]
fn root_unexpected_section_rejected() {
    let doc = jobj(vec![
        ("activePlayer", jobj(vec![("error", js("spectating"))])),
        ("allPlayers", jarr(vec![])),
        ("events", jobj(vec![("Events", jarr(vec![]))])),
        ("gameData", game_stats_json()),
        ("extraSection", jint(1)),
    ]);
    assert_eq!(
        AllGameData::from_json(&doc).unwrap_err(),
        DecodeError::SchemaMismatch("extraSection".to_string())
    );
}

#[test]
fn missing_required_field_names_it() {
    let f = fields_of(jobj(vec![
        ("abilityLevel", jint(1)),
        ("displayName", js("Q")),
        ("rawDescription", js("rd")),
        ("rawDisplayName", js("rdn")),
    ]));
    assert_eq!(
        lcu_data::active::decode_ability(&f).unwrap_err(),
        DecodeError::SchemaMismatch("id".to_string())
    );
}
