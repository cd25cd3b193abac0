use lcu_data::classify::{DragonType, Inhibitor, Killer, Turret};
use lcu_data::team::TeamId;
use lcu_data::player::Position;
use lcu_data::stats::{GameMode, MapName, MapTerrain};

#[test]
fn turret_exact_token_classifies() {
    assert!(matches!(Turret::from_str("Turret_T1_C_01_A"), Ok(Turret::Team1C01A)));
    assert!(matches!(Turret::from_str("Turret_T2_R_03_A"), Ok(Turret::Team2R03A)));
    assert!(matches!(Turret::from_str("Turret_OrderTurretShrine_A"), Ok(Turret::Team1Fountain)));
    assert!(matches!(Turret::from_str("Obelisk"), Ok(Turret::Obelisk)));
}

#[test]
fn turret_unknown_token_is_unknown_not_error() {
    assert!(matches!(Turret::from_str("Turret_T9_Z_99_A"), Ok(Turret::Unknown)));
    assert!(matches!(Turret::from_str(""), Ok(Turret::Unknown)));
    assert!(matches!(Turret::from_str("random nonsense"), Ok(Turret::Unknown)));
}

#[test]
fn dragon_short_and_engine_spellings() {
    assert!(matches!(DragonType::from_str("SRU_Dragon_Elder"), Ok(DragonType::Elder)));
    assert!(matches!(DragonType::from_str("Elder"), Ok(DragonType::Elder)));
    assert!(matches!(DragonType::from_str("Fire"), Ok(DragonType::Infernal)));
    assert!(matches!(DragonType::from_str("SRU_Dragon_Water"), Ok(DragonType::Ocean)));
    assert!(matches!(DragonType::from_str("Earth"), Ok(DragonType::Mountain)));
    assert!(matches!(DragonType::from_str("Air"), Ok(DragonType::Cloud)));
    assert!(matches!(DragonType::from_str("Hextech"), Ok(DragonType::Hextech)));
    assert!(matches!(DragonType::from_str("Chemtech"), Ok(DragonType::Chemtech)));
}

#[test]
fn dragon_unrecognized_token_is_an_error() {
    let r = DragonType::from_str("Banana");
    assert_eq!(r.unwrap_err(), "Banana".to_string());
}

#[test]
fn killer_minion_prefix() {
    assert!(matches!(Killer::from_str("Minion_Classic_Melee"), Ok(Killer::Minion)));
}

#[test]
fn killer_summoner_fallback() {
    let r = Killer::from_str("Hide on bush").unwrap();
    assert_eq!(r, Killer::Summoner("Hide on bush".to_string()));
}

#[test]
fn killer_classification_is_total_on_arbitrary_strings() {
    for s in [
        "",
        " ",
        "\u{1F409}",
        "totally random",
        "Turret",
        "SRU_",
        "xXxShadowxXx",
        "----",
    ] {
        assert!(Killer::from_str(s).is_ok());
        assert!(Turret::from_str(s).is_ok());
        assert!(Inhibitor::from_str(s).is_ok());
    }
}

#[test]
fn killer_baron_substring_maps_to_rift_herald() {
    // Faithful to the upstream vocabulary: "Baron" tokens classify as
    // RiftHerald, not as the Baron variant.
    assert!(matches!(Killer::from_str("SRU_Baron"), Ok(Killer::RiftHerald)));
    assert!(matches!(Killer::from_str("SRU_RiftHerald"), Ok(Killer::RiftHerald)));
}

#[test]
fn killer_jungle_markers() {
    assert!(matches!(Killer::from_str("SRU_Gromp"), Ok(Killer::Gromp)));
    assert!(matches!(Killer::from_str("SRU_Blue"), Ok(Killer::Blue)));
    assert!(matches!(Killer::from_str("SRU_Murkwolf"), Ok(Killer::Murkwolf)));
    assert!(matches!(Killer::from_str("SRU_Razorbeak"), Ok(Killer::Razorbeak)));
    assert!(matches!(Killer::from_str("SRU_Red"), Ok(Killer::Red)));
    assert!(matches!(Killer::from_str("SRU_Krug"), Ok(Killer::Krug)));
}

#[test]
fn killer_dragon_and_turret_precede_markers() {
    assert!(matches!(
        Killer::from_str("SRU_Dragon_Elder"),
        Ok(Killer::Dragon(DragonType::Elder))
    ));
    assert!(matches!(
        Killer::from_str("Turret_T1_C_01_A"),
        Ok(Killer::Turret(Turret::Team1C01A))
    ));
}

#[test]
fn inhibitor_tokens() {
    assert!(matches!(Inhibitor::from_str("Barracks_T1_L1"), Ok(Inhibitor::Team1L1)));
    assert!(matches!(Inhibitor::from_str("Barracks_T2_C1"), Ok(Inhibitor::Team2C1)));
    assert!(matches!(Inhibitor::from_str("Barracks_T9_X9"), Ok(Inhibitor::Unknown)));
}

#[test]
fn team_position_mode_map_literals() {
    assert_eq!(TeamId::from_str("ORDER"), TeamId::Order);
    assert_eq!(TeamId::from_str("CHAOS"), TeamId::Chaos);
    assert_eq!(TeamId::from_str("whatever"), TeamId::Unknown);
    assert_eq!(Position::from_str("JUNGLE"), Position::Jungle);
    assert_eq!(Position::from_str("NONE"), Position::NoPosition);
    assert_eq!(Position::from_str("goalkeeper"), Position::Unknown);
    assert_eq!(GameMode::from_str("CLASSIC"), GameMode::Classic);
    assert_eq!(GameMode::from_str("GAMEMODEX"), GameMode::NexusBlitz);
    assert_eq!(GameMode::from_str("TUTORIAL_MODULE_2"), GameMode::Tutorial2);
    assert_eq!(GameMode::from_str("SOMETHINGNEW"), GameMode::Unknown);
    assert_eq!(MapName::from_str("Map11"), MapName::Map11);
    assert_eq!(MapName::from_str("Map99"), MapName::Unknown);
    assert!(matches!(MapTerrain::from_str("Infernal"), Ok(MapTerrain::Infernal)));
    assert!(MapTerrain::from_str("Lunar").is_err());
}
