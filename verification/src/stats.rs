//! The game-stats section: mode, map and elapsed time.

use vstd::prelude::*;
use crate::json::{
    check_keys, decoded, get_bits, get_i32, key_views, mismatch_for, obj_get, sp_bits, sp_i32,
    sp_string, spec_lookup, spec_unknown_key, DecodeErrView, DecodeError, JsonNumber, JsonValue,
};
use crate::strutil::str_eq;
use crate::Time;

verus! {

broadcast use vstd::std_specs::control_flow::group_control_flow_axioms;

/// A map number.
pub type MapNumber = i32;

/// The game mode; unrecognized literals are `Unknown`, as the upstream
/// catalogue of modes is incomplete.
#[derive(Debug, Clone, Copy, PartialEq, Eq, Structural)]
pub enum GameMode {
    Classic,
    Odin,
    Aram,
    Tutorial,
    Tutorial1,
    Tutorial2,
    Tutorial3,
    Urf,
    PracticeTool,
    DoombotsTeemo,
    OneForAll,
    Ascension,
    FirstBlood,
    KingPoro,
    Siege,
    Assassinate,
    ARSR,
    Darkstar,
    StarGuardian,
    Project,
    NexusBlitz,
    Odyssey,
    UltBook,
    Unknown,
}

/// Which mode an upstream literal names; the tutorial parts and Nexus
/// Blitz each have an accepted alias spelling.
pub open spec fn game_mode_of(s: Seq<char>) -> GameMode {
    if s == "CLASSIC"@ {
        GameMode::Classic
    } else if s == "ODIN"@ {
        GameMode::Odin
    } else if s == "ARAM"@ {
        GameMode::Aram
    } else if s == "TUTORIAL"@ {
        GameMode::Tutorial
    } else if s == "TUTORIAL1"@ || s == "TUTORIAL_MODULE_1"@ {
        GameMode::Tutorial1
    } else if s == "TUTORIAL2"@ || s == "TUTORIAL_MODULE_2"@ {
        GameMode::Tutorial2
    } else if s == "TUTORIAL3"@ || s == "TUTORIAL_MODULE_3"@ {
        GameMode::Tutorial3
    } else if s == "URF"@ {
        GameMode::Urf
    } else if s == "PRACTICETOOL"@ {
        GameMode::PracticeTool
    } else if s == "DOOMBOTSTEEMO"@ {
        GameMode::DoombotsTeemo
    } else if s == "ONEFORALL"@ {
        GameMode::OneForAll
    } else if s == "ASCENSION"@ {
        GameMode::Ascension
    } else if s == "FIRSTBLOOD"@ {
        GameMode::FirstBlood
    } else if s == "KINGPORO"@ {
        GameMode::KingPoro
    } else if s == "SIEGE"@ {
        GameMode::Siege
    } else if s == "ASSASSINATE"@ {
        GameMode::Assassinate
    } else if s == "ARSR"@ {
        GameMode::ARSR
    } else if s == "DARKSTAR"@ {
        GameMode::Darkstar
    } else if s == "STARGUARDIAN"@ {
        GameMode::StarGuardian
    } else if s == "PROJECT"@ {
        GameMode::Project
    } else if s == "NEXUSBLITZ"@ || s == "GAMEMODEX"@ {
        GameMode::NexusBlitz
    } else if s == "ODYSSEY"@ {
        GameMode::Odyssey
    } else if s == "ULTBOOK"@ {
        GameMode::UltBook
    } else {
        GameMode::Unknown
    }
}

impl GameMode {
    /// Classify a game-mode literal; never fails.
    pub fn from_str(s: &str) -> (r: GameMode)
        ensures
            r == game_mode_of(s@),
    {
        if str_eq(s, "CLASSIC") {
            GameMode::Classic
        } else if str_eq(s, "ODIN") {
            GameMode::Odin
        } else if str_eq(s, "ARAM") {
            GameMode::Aram
        } else if str_eq(s, "TUTORIAL") {
            GameMode::Tutorial
        } else if str_eq(s, "TUTORIAL1") || str_eq(s, "TUTORIAL_MODULE_1") {
            GameMode::Tutorial1
        } else if str_eq(s, "TUTORIAL2") || str_eq(s, "TUTORIAL_MODULE_2") {
            GameMode::Tutorial2
        } else if str_eq(s, "TUTORIAL3") || str_eq(s, "TUTORIAL_MODULE_3") {
            GameMode::Tutorial3
        } else if str_eq(s, "URF") {
            GameMode::Urf
        } else if str_eq(s, "PRACTICETOOL") {
            GameMode::PracticeTool
        } else if str_eq(s, "DOOMBOTSTEEMO") {
            GameMode::DoombotsTeemo
        } else if str_eq(s, "ONEFORALL") {
            GameMode::OneForAll
        } else if str_eq(s, "ASCENSION") {
            GameMode::Ascension
        } else if str_eq(s, "FIRSTBLOOD") {
            GameMode::FirstBlood
        } else if str_eq(s, "KINGPORO") {
            GameMode::KingPoro
        } else if str_eq(s, "SIEGE") {
            GameMode::Siege
        } else if str_eq(s, "ASSASSINATE") {
            GameMode::Assassinate
        } else if str_eq(s, "ARSR") {
            GameMode::ARSR
        } else if str_eq(s, "DARKSTAR") {
            GameMode::Darkstar
        } else if str_eq(s, "STARGUARDIAN") {
            GameMode::StarGuardian
        } else if str_eq(s, "PROJECT") {
            GameMode::Project
        } else if str_eq(s, "NEXUSBLITZ") || str_eq(s, "GAMEMODEX") {
            GameMode::NexusBlitz
        } else if str_eq(s, "ODYSSEY") {
            GameMode::Odyssey
        } else if str_eq(s, "ULTBOOK") {
            GameMode::UltBook
        } else {
            GameMode::Unknown
        }
    }
}

impl GameMode {
    /// The upstream literal this mode decodes from, in the primary
    /// spelling where an alias exists. Classifying the literal yields
    /// the mode back: re-encoding loses nothing.
    #[verifier::rlimit(100)]
    pub fn as_literal(&self) -> (r: &'static str)
        ensures
            game_mode_of(r@) == *self,
    {
        let r: &'static str = match self {
            GameMode::Classic => "CLASSIC",
            GameMode::Odin => "ODIN",
            GameMode::Aram => "ARAM",
            GameMode::Tutorial => "TUTORIAL",
            GameMode::Tutorial1 => "TUTORIAL1",
            GameMode::Tutorial2 => "TUTORIAL2",
            GameMode::Tutorial3 => "TUTORIAL3",
            GameMode::Urf => "URF",
            GameMode::PracticeTool => "PRACTICETOOL",
            GameMode::DoombotsTeemo => "DOOMBOTSTEEMO",
            GameMode::OneForAll => "ONEFORALL",
            GameMode::Ascension => "ASCENSION",
            GameMode::FirstBlood => "FIRSTBLOOD",
            GameMode::KingPoro => "KINGPORO",
            GameMode::Siege => "SIEGE",
            GameMode::Assassinate => "ASSASSINATE",
            GameMode::ARSR => "ARSR",
            GameMode::Darkstar => "DARKSTAR",
            GameMode::StarGuardian => "STARGUARDIAN",
            GameMode::Project => "PROJECT",
            GameMode::NexusBlitz => "NEXUSBLITZ",
            GameMode::Odyssey => "ODYSSEY",
            GameMode::UltBook => "ULTBOOK",
            GameMode::Unknown => "UNKNOWN",
        };
        proof {
            reveal_strlit("CLASSIC");
            reveal_strlit("ODIN");
            reveal_strlit("ARAM");
            reveal_strlit("TUTORIAL");
            reveal_strlit("TUTORIAL1");
            reveal_strlit("TUTORIAL_MODULE_1");
            reveal_strlit("TUTORIAL2");
            reveal_strlit("TUTORIAL_MODULE_2");
            reveal_strlit("TUTORIAL3");
            reveal_strlit("TUTORIAL_MODULE_3");
            reveal_strlit("URF");
            reveal_strlit("PRACTICETOOL");
            reveal_strlit("DOOMBOTSTEEMO");
            reveal_strlit("ONEFORALL");
            reveal_strlit("ASCENSION");
            reveal_strlit("FIRSTBLOOD");
            reveal_strlit("KINGPORO");
            reveal_strlit("SIEGE");
            reveal_strlit("ASSASSINATE");
            reveal_strlit("ARSR");
            reveal_strlit("DARKSTAR");
            reveal_strlit("STARGUARDIAN");
            reveal_strlit("PROJECT");
            reveal_strlit("NEXUSBLITZ");
            reveal_strlit("GAMEMODEX");
            reveal_strlit("ODYSSEY");
            reveal_strlit("ULTBOOK");
            reveal_strlit("UNKNOWN");
            assert("CLASSIC"@.len() == 7 && "CLASSIC"@[0] == 'C');
            assert("ODIN"@.len() == 4 && "ODIN"@[0] == 'O');
            assert("ARAM"@.len() == 4 && "ARAM"@[0] == 'A' && "ARAM"@[2] == 'A');
            assert("TUTORIAL"@.len() == 8 && "TUTORIAL"@[0] == 'T');
            assert("TUTORIAL1"@.len() == 9 && "TUTORIAL1"@[0] == 'T' && "TUTORIAL1"@[8] == '1');
            assert("TUTORIAL_MODULE_1"@.len() == 17 && "TUTORIAL_MODULE_1"@[16] == '1');
            assert("TUTORIAL2"@.len() == 9 && "TUTORIAL2"@[8] == '2');
            assert("TUTORIAL_MODULE_2"@.len() == 17 && "TUTORIAL_MODULE_2"@[16] == '2');
            assert("TUTORIAL3"@.len() == 9 && "TUTORIAL3"@[8] == '3');
            assert("TUTORIAL_MODULE_3"@.len() == 17 && "TUTORIAL_MODULE_3"@[16] == '3');
            assert("URF"@.len() == 3);
            assert("PRACTICETOOL"@.len() == 12 && "PRACTICETOOL"@[0] == 'P');
            assert("DOOMBOTSTEEMO"@.len() == 13);
            assert("ONEFORALL"@.len() == 9 && "ONEFORALL"@[0] == 'O');
            assert("ASCENSION"@.len() == 9 && "ASCENSION"@[0] == 'A');
            assert("FIRSTBLOOD"@.len() == 10 && "FIRSTBLOOD"@[0] == 'F');
            assert("KINGPORO"@.len() == 8 && "KINGPORO"@[0] == 'K');
            assert("SIEGE"@.len() == 5);
            assert("ASSASSINATE"@.len() == 11);
            assert("ARSR"@.len() == 4 && "ARSR"@[0] == 'A' && "ARSR"@[2] == 'S');
            assert("DARKSTAR"@.len() == 8 && "DARKSTAR"@[0] == 'D');
            assert("STARGUARDIAN"@.len() == 12 && "STARGUARDIAN"@[0] == 'S');
            assert("PROJECT"@.len() == 7 && "PROJECT"@[0] == 'P');
            assert("NEXUSBLITZ"@.len() == 10 && "NEXUSBLITZ"@[0] == 'N');
            assert("GAMEMODEX"@.len() == 9 && "GAMEMODEX"@[0] == 'G');
            assert("ODYSSEY"@.len() == 7 && "ODYSSEY"@[0] == 'O');
            assert("ULTBOOK"@.len() == 7 && "ULTBOOK"@[0] == 'U' && "ULTBOOK"@[1] == 'L');
            assert("UNKNOWN"@.len() == 7 && "UNKNOWN"@[0] == 'U' && "UNKNOWN"@[1] == 'N');
        }
        r
    }
}

/// The map; unrecognized literals are `Unknown`, as the upstream
/// catalogue of maps is incomplete.
#[derive(Debug, Clone, Copy, PartialEq, Eq, Structural)]
pub enum MapName {
    Map1,
    Map2,
    Map3,
    Map4,
    Map8,
    Map10,
    Map11,
    Map12,
    Map14,
    Map16,
    Map18,
    Map19,
    Map20,
    Map21,
    Map22,
    Unknown,
}

/// Which map an upstream literal names; unrecognized literals are
/// `Unknown`.
pub open spec fn map_name_of(s: Seq<char>) -> MapName {
    if s == "Map1"@ {
        MapName::Map1
    } else if s == "Map2"@ {
        MapName::Map2
    } else if s == "Map3"@ {
        MapName::Map3
    } else if s == "Map4"@ {
        MapName::Map4
    } else if s == "Map8"@ {
        MapName::Map8
    } else if s == "Map10"@ {
        MapName::Map10
    } else if s == "Map11"@ {
        MapName::Map11
    } else if s == "Map12"@ {
        MapName::Map12
    } else if s == "Map14"@ {
        MapName::Map14
    } else if s == "Map16"@ {
        MapName::Map16
    } else if s == "Map18"@ {
        MapName::Map18
    } else if s == "Map19"@ {
        MapName::Map19
    } else if s == "Map20"@ {
        MapName::Map20
    } else if s == "Map21"@ {
        MapName::Map21
    } else if s == "Map22"@ {
        MapName::Map22
    } else {
        MapName::Unknown
    }
}

impl MapName {
    /// Classify a map literal; never fails.
    pub fn from_str(s: &str) -> (r: MapName)
        ensures
            r == map_name_of(s@),
    {
        if str_eq(s, "Map1") {
            MapName::Map1
        } else if str_eq(s, "Map2") {
            MapName::Map2
        } else if str_eq(s, "Map3") {
            MapName::Map3
        } else if str_eq(s, "Map4") {
            MapName::Map4
        } else if str_eq(s, "Map8") {
            MapName::Map8
        } else if str_eq(s, "Map10") {
            MapName::Map10
        } else if str_eq(s, "Map11") {
            MapName::Map11
        } else if str_eq(s, "Map12") {
            MapName::Map12
        } else if str_eq(s, "Map14") {
            MapName::Map14
        } else if str_eq(s, "Map16") {
            MapName::Map16
        } else if str_eq(s, "Map18") {
            MapName::Map18
        } else if str_eq(s, "Map19") {
            MapName::Map19
        } else if str_eq(s, "Map20") {
            MapName::Map20
        } else if str_eq(s, "Map21") {
            MapName::Map21
        } else if str_eq(s, "Map22") {
            MapName::Map22
        } else {
            MapName::Unknown
        }
    }
}

impl MapName {
    /// The upstream literal this map decodes from; `Unknown` carries no
    /// literal of its own, so it re-encodes as a token outside the
    /// catalogue, which classifies back to `Unknown`.
    #[verifier::rlimit(100)]
    pub fn as_literal(&self) -> (r: &'static str)
        ensures
            map_name_of(r@) == *self,
    {
        let r: &'static str = match self {
            MapName::Map1 => "Map1",
            MapName::Map2 => "Map2",
            MapName::Map3 => "Map3",
            MapName::Map4 => "Map4",
            MapName::Map8 => "Map8",
            MapName::Map10 => "Map10",
            MapName::Map11 => "Map11",
            MapName::Map12 => "Map12",
            MapName::Map14 => "Map14",
            MapName::Map16 => "Map16",
            MapName::Map18 => "Map18",
            MapName::Map19 => "Map19",
            MapName::Map20 => "Map20",
            MapName::Map21 => "Map21",
            MapName::Map22 => "Map22",
            MapName::Unknown => "MapUnknown",
        };
        proof {
            reveal_strlit("Map1");
            reveal_strlit("Map2");
            reveal_strlit("Map3");
            reveal_strlit("Map4");
            reveal_strlit("Map8");
            reveal_strlit("Map10");
            reveal_strlit("Map11");
            reveal_strlit("Map12");
            reveal_strlit("Map14");
            reveal_strlit("Map16");
            reveal_strlit("Map18");
            reveal_strlit("Map19");
            reveal_strlit("Map20");
            reveal_strlit("Map21");
            reveal_strlit("Map22");
            reveal_strlit("MapUnknown");
            assert("Map1"@.len() == 4 && "Map1"@[3] == '1');
            assert("Map2"@.len() == 4 && "Map2"@[3] == '2');
            assert("Map3"@.len() == 4 && "Map3"@[3] == '3');
            assert("Map4"@.len() == 4 && "Map4"@[3] == '4');
            assert("Map8"@.len() == 4 && "Map8"@[3] == '8');
            assert("Map10"@.len() == 5 && "Map10"@[3] == '1' && "Map10"@[4] == '0');
            assert("Map11"@.len() == 5 && "Map11"@[3] == '1' && "Map11"@[4] == '1');
            assert("Map12"@.len() == 5 && "Map12"@[3] == '1' && "Map12"@[4] == '2');
            assert("Map14"@.len() == 5 && "Map14"@[3] == '1' && "Map14"@[4] == '4');
            assert("Map16"@.len() == 5 && "Map16"@[3] == '1' && "Map16"@[4] == '6');
            assert("Map18"@.len() == 5 && "Map18"@[3] == '1' && "Map18"@[4] == '8');
            assert("Map19"@.len() == 5 && "Map19"@[3] == '1' && "Map19"@[4] == '9');
            assert("Map20"@.len() == 5 && "Map20"@[3] == '2' && "Map20"@[4] == '0');
            assert("Map21"@.len() == 5 && "Map21"@[3] == '2' && "Map21"@[4] == '1');
            assert("Map22"@.len() == 5 && "Map22"@[3] == '2' && "Map22"@[4] == '2');
            assert("MapUnknown"@.len() == 10);
        }
        r
    }
}

/// The map's elemental terrain. This set is closed: an unrecognized
/// literal is a mismatch.
#[derive(Debug, Clone, Copy, PartialEq, Eq, Structural)]
pub enum MapTerrain {
    Default,
    Infernal,
    Ocean,
    Mountain,
    Cloud,
    Hextech,
    Chemtech,
}

/// Which terrain an upstream literal names, if any.
pub open spec fn map_terrain_of(s: Seq<char>) -> Option<MapTerrain> {
    if s == "Default"@ {
        Some(MapTerrain::Default)
    } else if s == "Infernal"@ {
        Some(MapTerrain::Infernal)
    } else if s == "Ocean"@ {
        Some(MapTerrain::Ocean)
    } else if s == "Mountain"@ {
        Some(MapTerrain::Mountain)
    } else if s == "Cloud"@ {
        Some(MapTerrain::Cloud)
    } else if s == "Hextech"@ {
        Some(MapTerrain::Hextech)
    } else if s == "Chemtech"@ {
        Some(MapTerrain::Chemtech)
    } else {
        None
    }
}

impl MapTerrain {
    /// Classify a terrain literal; a token naming no terrain is an error
    /// carrying the token itself.
    pub fn from_str(s: &str) -> (r: Result<MapTerrain, String>)
        ensures
            match r {
                Ok(t) => map_terrain_of(s@) == Some(t),
                Err(e) => map_terrain_of(s@) is None && e@ == s@,
            },
    {
        if str_eq(s, "Default") {
            Ok(MapTerrain::Default)
        } else if str_eq(s, "Infernal") {
            Ok(MapTerrain::Infernal)
        } else if str_eq(s, "Ocean") {
            Ok(MapTerrain::Ocean)
        } else if str_eq(s, "Mountain") {
            Ok(MapTerrain::Mountain)
        } else if str_eq(s, "Cloud") {
            Ok(MapTerrain::Cloud)
        } else if str_eq(s, "Hextech") {
            Ok(MapTerrain::Hextech)
        } else if str_eq(s, "Chemtech") {
            Ok(MapTerrain::Chemtech)
        } else {
            Err(s.to_owned())
        }
    }
}

impl MapTerrain {
    /// The upstream literal this terrain decodes from. The terrain set
    /// is closed, so every variant has one.
    pub fn as_literal(&self) -> (r: &'static str)
        ensures
            map_terrain_of(r@) == Some(*self),
    {
        let r: &'static str = match self {
            MapTerrain::Default => "Default",
            MapTerrain::Infernal => "Infernal",
            MapTerrain::Ocean => "Ocean",
            MapTerrain::Mountain => "Mountain",
            MapTerrain::Cloud => "Cloud",
            MapTerrain::Hextech => "Hextech",
            MapTerrain::Chemtech => "Chemtech",
        };
        proof {
            reveal_strlit("Default");
            reveal_strlit("Infernal");
            reveal_strlit("Ocean");
            reveal_strlit("Mountain");
            reveal_strlit("Cloud");
            reveal_strlit("Hextech");
            reveal_strlit("Chemtech");
            assert("Default"@.len() == 7 && "Default"@[0] == 'D');
            assert("Infernal"@.len() == 8 && "Infernal"@[0] == 'I');
            assert("Ocean"@.len() == 5 && "Ocean"@[0] == 'O');
            assert("Mountain"@.len() == 8 && "Mountain"@[0] == 'M');
            assert("Cloud"@.len() == 5 && "Cloud"@[0] == 'C');
            assert("Hextech"@.len() == 7 && "Hextech"@[0] == 'H');
            assert("Chemtech"@.len() == 8 && "Chemtech"@[0] == 'C');
        }
        r
    }
}

/// The game-stats record.
#[derive(Debug, Clone, PartialEq)]
pub struct GameStats {
    pub game_mode: GameMode,
    pub game_time: Time,
    pub map_name: MapName,
    pub map_number: MapNumber,
    pub map_terrain: MapTerrain,
}

/// Member names the game-stats object may carry.
pub open spec fn game_stats_keys() -> Seq<Seq<char>> {
    seq!["gameMode"@, "gameTime"@, "mapName"@, "mapNumber"@, "mapTerrain"@]
}

/// Specification of a required game-mode field.
pub open spec fn sp_game_mode(fs: Seq<(String, JsonValue)>, k: Seq<char>) -> Result<
    GameMode,
    DecodeErrView,
> {
    match sp_string(fs, k) {
        Ok(s) => Ok(game_mode_of(s@)),
        Err(e) => Err(e),
    }
}

/// Specification of a required map-name field.
pub open spec fn sp_map_name(fs: Seq<(String, JsonValue)>, k: Seq<char>) -> Result<
    MapName,
    DecodeErrView,
> {
    match sp_string(fs, k) {
        Ok(s) => Ok(map_name_of(s@)),
        Err(e) => Err(e),
    }
}

/// Specification of a required map-terrain field: the closed set makes an
/// unrecognized literal a mismatch.
pub open spec fn sp_map_terrain(fs: Seq<(String, JsonValue)>, k: Seq<char>) -> Result<
    MapTerrain,
    DecodeErrView,
> {
    match sp_string(fs, k) {
        Ok(s) => match map_terrain_of(s@) {
            Some(t) => Ok(t),
            None => Err(DecodeErrView::SchemaMismatch(k)),
        },
        Err(e) => Err(e),
    }
}

/// Decode a required game-mode field.
pub fn get_game_mode(fields: &Vec<(String, JsonValue)>, k: &str) -> (r: Result<
    GameMode,
    DecodeError,
>)
    ensures
        decoded(r) == sp_game_mode(fields@, k@),
{
    match obj_get(fields, k) {
        Some(JsonValue::Str(s)) => Ok(GameMode::from_str(s.as_str())),
        _ => Err(mismatch_for(k)),
    }
}

/// Decode a required map-name field.
pub fn get_map_name(fields: &Vec<(String, JsonValue)>, k: &str) -> (r: Result<
    MapName,
    DecodeError,
>)
    ensures
        decoded(r) == sp_map_name(fields@, k@),
{
    match obj_get(fields, k) {
        Some(JsonValue::Str(s)) => Ok(MapName::from_str(s.as_str())),
        _ => Err(mismatch_for(k)),
    }
}

/// Decode a required map-terrain field.
pub fn get_map_terrain(fields: &Vec<(String, JsonValue)>, k: &str) -> (r: Result<
    MapTerrain,
    DecodeError,
>)
    ensures
        decoded(r) == sp_map_terrain(fields@, k@),
{
    match obj_get(fields, k) {
        Some(JsonValue::Str(s)) => match MapTerrain::from_str(s.as_str()) {
            Ok(t) => Ok(t),
            Err(_) => Err(mismatch_for(k)),
        },
        _ => Err(mismatch_for(k)),
    }
}

/// How the game-stats record decodes from its object members.
pub open spec fn game_stats_from_fields(fs: Seq<(String, JsonValue)>) -> Result<
    GameStats,
    DecodeErrView,
> {
    match spec_unknown_key(fs, game_stats_keys()) {
        Some(k) => Err(DecodeErrView::SchemaMismatch(k@)),
        None => if sp_game_mode(fs, "gameMode"@) is Err {
            Err(sp_game_mode(fs, "gameMode"@)->Err_0)
        } else if sp_bits(fs, "gameTime"@) is Err {
            Err(sp_bits(fs, "gameTime"@)->Err_0)
        } else if sp_map_name(fs, "mapName"@) is Err {
            Err(sp_map_name(fs, "mapName"@)->Err_0)
        } else if sp_i32(fs, "mapNumber"@) is Err {
            Err(sp_i32(fs, "mapNumber"@)->Err_0)
        } else if sp_map_terrain(fs, "mapTerrain"@) is Err {
            Err(sp_map_terrain(fs, "mapTerrain"@)->Err_0)
        } else {
            Ok(
                GameStats {
                    game_mode: sp_game_mode(fs, "gameMode"@)->Ok_0,
                    game_time: sp_bits(fs, "gameTime"@)->Ok_0,
                    map_name: sp_map_name(fs, "mapName"@)->Ok_0,
                    map_number: sp_i32(fs, "mapNumber"@)->Ok_0,
                    map_terrain: sp_map_terrain(fs, "mapTerrain"@)->Ok_0,
                },
            )
        },
    }
}

/// Decode the game-stats object.
pub fn decode_game_stats(fields: &Vec<(String, JsonValue)>) -> (r: Result<GameStats, DecodeError>)
    ensures
        decoded(r) == game_stats_from_fields(fields@),
{
    let allowed: [&str; 5] = ["gameMode", "gameTime", "mapName", "mapNumber", "mapTerrain"];
    proof {
        assert(key_views(allowed@) =~= game_stats_keys());
    }
    if let Some(k) = check_keys(fields, &allowed) {
        return Err(DecodeError::SchemaMismatch(k));
    }
    let game_mode = get_game_mode(fields, "gameMode")?;
    let game_time = get_bits(fields, "gameTime")?;
    let map_name = get_map_name(fields, "mapName")?;
    let map_number = get_i32(fields, "mapNumber")?;
    let map_terrain = get_map_terrain(fields, "mapTerrain")?;
    Ok(GameStats { game_mode, game_time, map_name, map_number, map_terrain })
}

impl GameStats {
    /// Re-encode this record as a JSON object. Decoding the result
    /// yields the record back unchanged: re-encoding preserves every
    /// field value, the enum fields through their upstream literals.
    #[verifier::rlimit(100)]
    pub fn to_json(&self) -> (v: JsonValue)
        ensures
            v matches JsonValue::Obj(o) && game_stats_from_fields(o@) == Ok::<
                GameStats,
                DecodeErrView,
            >(*self),
    {
        let mut fields: Vec<(String, JsonValue)> = Vec::new();
        fields.push(
            (
                String::from_str("gameMode"),
                JsonValue::Str(String::from_str(self.game_mode.as_literal())),
            ),
        );
        fields.push(
            (
                String::from_str("gameTime"),
                JsonValue::Num(JsonNumber { int_val: None, bits: self.game_time }),
            ),
        );
        fields.push(
            (
                String::from_str("mapName"),
                JsonValue::Str(String::from_str(self.map_name.as_literal())),
            ),
        );
        fields.push(
            (
                String::from_str("mapNumber"),
                JsonValue::Num(JsonNumber { int_val: Some(self.map_number as i64), bits: 0 }),
            ),
        );
        fields.push(
            (
                String::from_str("mapTerrain"),
                JsonValue::Str(String::from_str(self.map_terrain.as_literal())),
            ),
        );
        proof {
            reveal_strlit("gameMode");
            reveal_strlit("gameTime");
            reveal_strlit("mapName");
            reveal_strlit("mapNumber");
            reveal_strlit("mapTerrain");
            assert("gameMode"@.len() == 8 && "gameMode"@[4] == 'M');
            assert("gameTime"@.len() == 8 && "gameTime"@[4] == 'T');
            assert("mapName"@.len() == 7);
            assert("mapNumber"@.len() == 9);
            assert("mapTerrain"@.len() == 10);
            let fs = fields@;
            let ks = game_stats_keys();
            assert(fs.len() == 5);
            assert(fs[0].0@ == "gameMode"@);
            assert(fs[1].0@ == "gameTime"@);
            assert(fs[2].0@ == "mapName"@);
            assert(fs[3].0@ == "mapNumber"@);
            assert(fs[4].0@ == "mapTerrain"@);
            assert(ks[0] == "gameMode"@);
            assert(ks[1] == "gameTime"@);
            assert(ks[2] == "mapName"@);
            assert(ks[3] == "mapNumber"@);
            assert(ks[4] == "mapTerrain"@);
            assert(ks.contains(fs[0].0@));
            assert(ks.contains(fs[1].0@));
            assert(ks.contains(fs[2].0@));
            assert(ks.contains(fs[3].0@));
            assert(ks.contains(fs[4].0@));
            assert(fs.skip(1).skip(1) =~= fs.skip(2));
            assert(fs.skip(2).skip(1) =~= fs.skip(3));
            assert(fs.skip(3).skip(1) =~= fs.skip(4));
            assert(fs.skip(4).skip(1) =~= fs.skip(5));
            assert(fs.skip(1)[0] == fs[1]);
            assert(fs.skip(2)[0] == fs[2]);
            assert(fs.skip(3)[0] == fs[3]);
            assert(fs.skip(4)[0] == fs[4]);
            assert(fs.skip(5).len() == 0);
            assert(spec_unknown_key(fs.skip(5), ks) is None);
            assert(spec_unknown_key(fs.skip(4), ks) is None);
            assert(spec_unknown_key(fs.skip(3), ks) is None);
            assert(spec_unknown_key(fs.skip(2), ks) is None);
            assert(spec_unknown_key(fs.skip(1), ks) is None);
            assert(spec_unknown_key(fs, ks) is None);
            assert(spec_lookup(fs, "gameMode"@) == Some(fs[0].1));
            assert(spec_lookup(fs.skip(1), "gameTime"@) == Some(fs[1].1));
            assert(spec_lookup(fs, "gameTime"@) == Some(fs[1].1));
            assert(spec_lookup(fs.skip(2), "mapName"@) == Some(fs[2].1));
            assert(spec_lookup(fs.skip(1), "mapName"@) == Some(fs[2].1));
            assert(spec_lookup(fs, "mapName"@) == Some(fs[2].1));
            assert(spec_lookup(fs.skip(3), "mapNumber"@) == Some(fs[3].1));
            assert(spec_lookup(fs.skip(2), "mapNumber"@) == Some(fs[3].1));
            assert(spec_lookup(fs.skip(1), "mapNumber"@) == Some(fs[3].1));
            assert(spec_lookup(fs, "mapNumber"@) == Some(fs[3].1));
            assert(spec_lookup(fs.skip(4), "mapTerrain"@) == Some(fs[4].1));
            assert(spec_lookup(fs.skip(3), "mapTerrain"@) == Some(fs[4].1));
            assert(spec_lookup(fs.skip(2), "mapTerrain"@) == Some(fs[4].1));
            assert(spec_lookup(fs.skip(1), "mapTerrain"@) == Some(fs[4].1));
            assert(spec_lookup(fs, "mapTerrain"@) == Some(fs[4].1));
            assert(game_stats_from_fields(fs) == Ok::<GameStats, DecodeErrView>(*self));
        }
        JsonValue::Obj(fields)
    }
}

} // verus!
