//! The player-list section: one record per participant, with items,
//! scores, summoner spells and the reduced rune summary.

use vstd::prelude::*;
use crate::json::{
    check_keys, decoded, get_arr, get_bits, get_bool, get_i32, get_i32_alias, get_obj,
    get_opt_string, get_string, key_views, lemma_seq_of_err, lemma_seq_of_ok, mismatch_for,
    obj_get, sp_arr, sp_bits, sp_bool, sp_i32, sp_i32_alias, sp_obj, sp_opt_string, sp_seq_of,
    sp_string, spec_lookup, spec_unknown_key, DecodeErrView, DecodeError, JsonNumber, JsonValue,
};
use crate::runes::{decode_player_runes, player_runes_from_fields, PlayerRunes};
use crate::team::{get_team, sp_team, TeamId};
use crate::strutil::str_eq;
use crate::{Level, NumBits, SummonerName, Time};

verus! {

broadcast use vstd::std_specs::control_flow::group_control_flow_axioms;

/// A champion's name.
pub type ChampionName = String;

/// A skin's name.
pub type SkinName = String;

/// A skin identifier.
pub type SkinId = i32;

/// How many of one item a slot holds.
pub type ItemCount = i32;

/// An item's display name.
pub type ItemName = String;

/// An item identifier.
pub type ItemId = i32;

/// An item's shop price.
pub type Price = i32;

/// An inventory slot index.
pub type ItemSlot = i32;

/// Kills scored.
pub type Kills = i32;

/// Deaths suffered.
pub type Deaths = i32;

/// Assists scored.
pub type Assists = i32;

/// Minions and monsters killed.
pub type CreepScore = i32;

/// Vision score, as the bit pattern of the upstream double.
pub type WardScore = NumBits;

/// Where a player is assigned on the map; unrecognized literals are
/// `Unknown`.
#[derive(Debug, Clone, Copy, PartialEq, Eq, Structural)]
pub enum Position {
    Top,
    Jungle,
    Middle,
    Bottom,
    Utility,
    NoPosition,
    Unknown,
}

/// Which position an upstream literal names; unrecognized literals are
/// `Unknown`.
pub open spec fn position_of(s: Seq<char>) -> Position {
    if s == "TOP"@ {
        Position::Top
    } else if s == "JUNGLE"@ {
        Position::Jungle
    } else if s == "MIDDLE"@ {
        Position::Middle
    } else if s == "BOTTOM"@ {
        Position::Bottom
    } else if s == "UTILITY"@ {
        Position::Utility
    } else if s == "NONE"@ {
        Position::NoPosition
    } else {
        Position::Unknown
    }
}

impl Position {
    /// Classify a position literal; never fails.
    pub fn from_str(s: &str) -> (r: Position)
        ensures
            r == position_of(s@),
    {
        if str_eq(s, "TOP") {
            Position::Top
        } else if str_eq(s, "JUNGLE") {
            Position::Jungle
        } else if str_eq(s, "MIDDLE") {
            Position::Middle
        } else if str_eq(s, "BOTTOM") {
            Position::Bottom
        } else if str_eq(s, "UTILITY") {
            Position::Utility
        } else if str_eq(s, "NONE") {
            Position::NoPosition
        } else {
            Position::Unknown
        }
    }
}

/// Specification of a required position field.
pub open spec fn sp_position(fs: Seq<(String, JsonValue)>, k: Seq<char>) -> Result<
    Position,
    DecodeErrView,
> {
    match sp_string(fs, k) {
        Ok(s) => Ok(position_of(s@)),
        Err(e) => Err(e),
    }
}

/// Decode a required position field.
pub fn get_position(fields: &Vec<(String, JsonValue)>, k: &str) -> (r: Result<
    Position,
    DecodeError,
>)
    ensures
        decoded(r) == sp_position(fields@, k@),
{
    match obj_get(fields, k) {
        Some(JsonValue::Str(s)) => Ok(Position::from_str(s.as_str())),
        _ => Err(mismatch_for(k)),
    }
}

/// One inventory item.
#[derive(Debug, Clone, PartialEq)]
pub struct PlayerItem {
    pub can_use: bool,
    pub consumable: bool,
    pub count: ItemCount,
    pub display_name: ItemName,
    pub item_id: ItemId,
    pub price: Price,
    pub raw_description: String,
    pub raw_display_name: String,
    pub slot: ItemSlot,
}

/// Member names an item object may carry; the item identifier is
/// accepted under either of two casings.
pub open spec fn player_item_keys() -> Seq<Seq<char>> {
    seq![
        "canUse"@,
        "consumable"@,
        "count"@,
        "displayName"@,
        "itemID"@,
        "itemId"@,
        "price"@,
        "rawDescription"@,
        "rawDisplayName"@,
        "slot"@,
    ]
}

/// How an item decodes from its object members.
pub open spec fn player_item_from_fields(fs: Seq<(String, JsonValue)>) -> Result<
    PlayerItem,
    DecodeErrView,
> {
    match spec_unknown_key(fs, player_item_keys()) {
        Some(k) => Err(DecodeErrView::SchemaMismatch(k@)),
        None => if sp_bool(fs, "canUse"@) is Err {
            Err(sp_bool(fs, "canUse"@)->Err_0)
        } else if sp_bool(fs, "consumable"@) is Err {
            Err(sp_bool(fs, "consumable"@)->Err_0)
        } else if sp_i32(fs, "count"@) is Err {
            Err(sp_i32(fs, "count"@)->Err_0)
        } else if sp_string(fs, "displayName"@) is Err {
            Err(sp_string(fs, "displayName"@)->Err_0)
        } else if sp_i32_alias(fs, "itemId"@, "itemID"@) is Err {
            Err(sp_i32_alias(fs, "itemId"@, "itemID"@)->Err_0)
        } else if sp_i32(fs, "price"@) is Err {
            Err(sp_i32(fs, "price"@)->Err_0)
        } else if sp_string(fs, "rawDescription"@) is Err {
            Err(sp_string(fs, "rawDescription"@)->Err_0)
        } else if sp_string(fs, "rawDisplayName"@) is Err {
            Err(sp_string(fs, "rawDisplayName"@)->Err_0)
        } else if sp_i32(fs, "slot"@) is Err {
            Err(sp_i32(fs, "slot"@)->Err_0)
        } else {
            Ok(
                PlayerItem {
                    can_use: sp_bool(fs, "canUse"@)->Ok_0,
                    consumable: sp_bool(fs, "consumable"@)->Ok_0,
                    count: sp_i32(fs, "count"@)->Ok_0,
                    display_name: sp_string(fs, "displayName"@)->Ok_0,
                    item_id: sp_i32_alias(fs, "itemId"@, "itemID"@)->Ok_0,
                    price: sp_i32(fs, "price"@)->Ok_0,
                    raw_description: sp_string(fs, "rawDescription"@)->Ok_0,
                    raw_display_name: sp_string(fs, "rawDisplayName"@)->Ok_0,
                    slot: sp_i32(fs, "slot"@)->Ok_0,
                },
            )
        },
    }
}

/// Decode an item object.
pub fn decode_player_item(fields: &Vec<(String, JsonValue)>) -> (r: Result<
    PlayerItem,
    DecodeError,
>)
    ensures
        decoded(r) == player_item_from_fields(fields@),
{
    let allowed: [&str; 10] = [
        "canUse",
        "consumable",
        "count",
        "displayName",
        "itemID",
        "itemId",
        "price",
        "rawDescription",
        "rawDisplayName",
        "slot",
    ];
    proof {
        assert(key_views(allowed@) =~= player_item_keys());
    }
    if let Some(k) = check_keys(fields, &allowed) {
        return Err(DecodeError::SchemaMismatch(k));
    }
    let can_use = get_bool(fields, "canUse")?;
    let consumable = get_bool(fields, "consumable")?;
    let count = get_i32(fields, "count")?;
    let display_name = get_string(fields, "displayName")?;
    let item_id = get_i32_alias(fields, "itemId", "itemID")?;
    let price = get_i32(fields, "price")?;
    let raw_description = get_string(fields, "rawDescription")?;
    let raw_display_name = get_string(fields, "rawDisplayName")?;
    let slot = get_i32(fields, "slot")?;
    Ok(
        PlayerItem {
            can_use,
            consumable,
            count,
            display_name,
            item_id,
            price,
            raw_description,
            raw_display_name,
            slot,
        },
    )
}

/// How one array element decodes as an item.
pub open spec fn player_item_elem(k: Seq<char>) -> spec_fn(JsonValue) -> Result<
    PlayerItem,
    DecodeErrView,
> {
    |v: JsonValue|
        match v {
            JsonValue::Obj(o) => player_item_from_fields(o@),
            _ => Err(DecodeErrView::SchemaMismatch(k)),
        }
}

/// Specification of a required array-of-items field.
pub open spec fn sp_item_vec(fs: Seq<(String, JsonValue)>, k: Seq<char>) -> Result<
    Seq<PlayerItem>,
    DecodeErrView,
> {
    match sp_arr(fs, k) {
        Ok(a) => sp_seq_of(a@, player_item_elem(k)),
        Err(e) => Err(e),
    }
}

/// Decode a required array-of-items field.
pub fn get_item_vec(fields: &Vec<(String, JsonValue)>, k: &str) -> (r: Result<
    Vec<PlayerItem>,
    DecodeError,
>)
    ensures
        match r {
            Ok(v) => sp_item_vec(fields@, k@) == Ok::<Seq<PlayerItem>, DecodeErrView>(v@),
            Err(e) => sp_item_vec(fields@, k@) == Err::<Seq<PlayerItem>, DecodeErrView>(e@),
        },
{
    let arr = match get_arr(fields, k) {
        Ok(a) => a,
        Err(e) => {
            return Err(e);
        },
    };
    let ghost f = player_item_elem(k@);
    let mut out: Vec<PlayerItem> = Vec::new();
    let mut i: usize = 0;
    while i < arr.len()
        invariant
            0 <= i <= arr@.len(),
            out@.len() == i,
            f == player_item_elem(k@),
            sp_arr(fields@, k@) == Ok::<Vec<JsonValue>, DecodeErrView>(*arr),
            forall|j: int| 0 <= j < i ==> f(arr@[j]) == Ok::<PlayerItem, DecodeErrView>(out@[j]),
        decreases arr@.len() - i,
    {
        match &arr[i] {
            JsonValue::Obj(o) => match decode_player_item(o) {
                Ok(x) => {
                    out.push(x);
                },
                Err(e) => {
                    proof {
                        lemma_seq_of_err(arr@, f, i as int, e@);
                    }
                    return Err(e);
                },
            },
            _ => {
                proof {
                    lemma_seq_of_err(arr@, f, i as int, DecodeErrView::SchemaMismatch(k@));
                }
                return Err(mismatch_for(k));
            },
        }
        i += 1;
    }
    proof {
        lemma_seq_of_ok(arr@, f, out@);
    }
    Ok(out)
}

/// Kills, deaths, assists, creep score and vision score.
#[derive(Debug, Clone, PartialEq)]
pub struct PlayerScores {
    pub kills: Kills,
    pub deaths: Deaths,
    pub assists: Assists,
    pub creep_score: CreepScore,
    pub ward_score: WardScore,
}

/// Member names a scores object may carry.
pub open spec fn player_scores_keys() -> Seq<Seq<char>> {
    seq!["assists"@, "creepScore"@, "deaths"@, "kills"@, "wardScore"@]
}

/// How a scores object decodes from its members.
pub open spec fn player_scores_from_fields(fs: Seq<(String, JsonValue)>) -> Result<
    PlayerScores,
    DecodeErrView,
> {
    match spec_unknown_key(fs, player_scores_keys()) {
        Some(k) => Err(DecodeErrView::SchemaMismatch(k@)),
        None => if sp_i32(fs, "kills"@) is Err {
            Err(sp_i32(fs, "kills"@)->Err_0)
        } else if sp_i32(fs, "deaths"@) is Err {
            Err(sp_i32(fs, "deaths"@)->Err_0)
        } else if sp_i32(fs, "assists"@) is Err {
            Err(sp_i32(fs, "assists"@)->Err_0)
        } else if sp_i32(fs, "creepScore"@) is Err {
            Err(sp_i32(fs, "creepScore"@)->Err_0)
        } else if sp_bits(fs, "wardScore"@) is Err {
            Err(sp_bits(fs, "wardScore"@)->Err_0)
        } else {
            Ok(
                PlayerScores {
                    kills: sp_i32(fs, "kills"@)->Ok_0,
                    deaths: sp_i32(fs, "deaths"@)->Ok_0,
                    assists: sp_i32(fs, "assists"@)->Ok_0,
                    creep_score: sp_i32(fs, "creepScore"@)->Ok_0,
                    ward_score: sp_bits(fs, "wardScore"@)->Ok_0,
                },
            )
        },
    }
}

/// Decode a scores object.
pub fn decode_player_scores(fields: &Vec<(String, JsonValue)>) -> (r: Result<
    PlayerScores,
    DecodeError,
>)
    ensures
        decoded(r) == player_scores_from_fields(fields@),
{
    let allowed: [&str; 5] = ["assists", "creepScore", "deaths", "kills", "wardScore"];
    proof {
        assert(key_views(allowed@) =~= player_scores_keys());
    }
    if let Some(k) = check_keys(fields, &allowed) {
        return Err(DecodeError::SchemaMismatch(k));
    }
    let kills = get_i32(fields, "kills")?;
    let deaths = get_i32(fields, "deaths")?;
    let assists = get_i32(fields, "assists")?;
    let creep_score = get_i32(fields, "creepScore")?;
    let ward_score = get_bits(fields, "wardScore")?;
    Ok(PlayerScores { kills, deaths, assists, creep_score, ward_score })
}

impl PlayerScores {
    /// Re-encode this scores record as a JSON object. Decoding the
    /// result yields the record back unchanged.
    #[verifier::rlimit(60)]
    pub fn to_json(&self) -> (v: JsonValue)
        ensures
            v matches JsonValue::Obj(o) && player_scores_from_fields(o@) == Ok::<
                PlayerScores,
                DecodeErrView,
            >(*self),
    {
        let mut fields: Vec<(String, JsonValue)> = Vec::new();
        fields.push(
            (
                String::from_str("assists"),
                JsonValue::Num(JsonNumber { int_val: Some(self.assists as i64), bits: 0 }),
            ),
        );
        fields.push(
            (
                String::from_str("creepScore"),
                JsonValue::Num(JsonNumber { int_val: Some(self.creep_score as i64), bits: 0 }),
            ),
        );
        fields.push(
            (
                String::from_str("deaths"),
                JsonValue::Num(JsonNumber { int_val: Some(self.deaths as i64), bits: 0 }),
            ),
        );
        fields.push(
            (
                String::from_str("kills"),
                JsonValue::Num(JsonNumber { int_val: Some(self.kills as i64), bits: 0 }),
            ),
        );
        fields.push(
            (
                String::from_str("wardScore"),
                JsonValue::Num(JsonNumber { int_val: None, bits: self.ward_score }),
            ),
        );
        proof {
            reveal_strlit("assists");
            reveal_strlit("creepScore");
            reveal_strlit("deaths");
            reveal_strlit("kills");
            reveal_strlit("wardScore");
            assert("assists"@.len() == 7);
            assert("creepScore"@.len() == 10);
            assert("deaths"@.len() == 6);
            assert("kills"@.len() == 5);
            assert("wardScore"@.len() == 9);
            let fs = fields@;
            let ks = player_scores_keys();
            assert(fs.len() == 5);
            assert(fs[0].0@ == "assists"@);
            assert(fs[1].0@ == "creepScore"@);
            assert(fs[2].0@ == "deaths"@);
            assert(fs[3].0@ == "kills"@);
            assert(fs[4].0@ == "wardScore"@);
            assert(ks[0] == "assists"@);
            assert(ks[1] == "creepScore"@);
            assert(ks[2] == "deaths"@);
            assert(ks[3] == "kills"@);
            assert(ks[4] == "wardScore"@);
            assert(ks.contains(fs[0].0@));
            assert(ks.contains(fs[1].0@));
            assert(ks.contains(fs[2].0@));
            assert(ks.contains(fs[3].0@));
            assert(ks.contains(fs[4].0@));
            assert(fs.skip(1).skip(1) =~= fs.skip(2));
            assert(fs.skip(2).skip(1) =~= fs.skip(3));
            assert(fs.skip(3).skip(1) =~= fs.skip(4));
            assert(fs.skip(4).skip(1) =~= fs.skip(5));
            assert(fs.skip(1)[0] == fs[1]);
            assert(fs.skip(2)[0] == fs[2]);
            assert(fs.skip(3)[0] == fs[3]);
            assert(fs.skip(4)[0] == fs[4]);
            assert(fs.skip(5).len() == 0);
            assert(spec_unknown_key(fs.skip(5), ks) is None);
            assert(spec_unknown_key(fs.skip(4), ks) is None);
            assert(spec_unknown_key(fs.skip(3), ks) is None);
            assert(spec_unknown_key(fs.skip(2), ks) is None);
            assert(spec_unknown_key(fs.skip(1), ks) is None);
            assert(spec_unknown_key(fs, ks) is None);
            assert(spec_lookup(fs, "assists"@) == Some(fs[0].1));
            assert(spec_lookup(fs.skip(1), "creepScore"@) == Some(fs[1].1));
            assert(spec_lookup(fs, "creepScore"@) == Some(fs[1].1));
            assert(spec_lookup(fs.skip(2), "deaths"@) == Some(fs[2].1));
            assert(spec_lookup(fs.skip(1), "deaths"@) == Some(fs[2].1));
            assert(spec_lookup(fs, "deaths"@) == Some(fs[2].1));
            assert(spec_lookup(fs.skip(3), "kills"@) == Some(fs[3].1));
            assert(spec_lookup(fs.skip(2), "kills"@) == Some(fs[3].1));
            assert(spec_lookup(fs.skip(1), "kills"@) == Some(fs[3].1));
            assert(spec_lookup(fs, "kills"@) == Some(fs[3].1));
            assert(spec_lookup(fs.skip(4), "wardScore"@) == Some(fs[4].1));
            assert(spec_lookup(fs.skip(3), "wardScore"@) == Some(fs[4].1));
            assert(spec_lookup(fs.skip(2), "wardScore"@) == Some(fs[4].1));
            assert(spec_lookup(fs.skip(1), "wardScore"@) == Some(fs[4].1));
            assert(spec_lookup(fs, "wardScore"@) == Some(fs[4].1));
            assert(player_scores_from_fields(fs) == Ok::<PlayerScores, DecodeErrView>(*self));
        }
        JsonValue::Obj(fields)
    }
}

/// A summoner spell's display name.
pub type SummonerSpellName = String;

/// One summoner spell.
#[derive(Debug, Clone, PartialEq)]
pub struct SummonerSpell {
    pub display_name: SummonerSpellName,
    pub raw_description: String,
    pub raw_display_name: String,
}

/// The two summoner-spell slots.
#[derive(Debug, Clone, PartialEq)]
pub struct SummonerSpells {
    pub summoner_spell_one: SummonerSpell,
    pub summoner_spell_two: SummonerSpell,
}

/// Member names a summoner-spell object may carry.
pub open spec fn summoner_spell_keys() -> Seq<Seq<char>> {
    seq!["displayName"@, "rawDescription"@, "rawDisplayName"@]
}

/// How a summoner spell decodes from its object members.
pub open spec fn summoner_spell_from_fields(fs: Seq<(String, JsonValue)>) -> Result<
    SummonerSpell,
    DecodeErrView,
> {
    match spec_unknown_key(fs, summoner_spell_keys()) {
        Some(k) => Err(DecodeErrView::SchemaMismatch(k@)),
        None => if sp_string(fs, "displayName"@) is Err {
            Err(sp_string(fs, "displayName"@)->Err_0)
        } else if sp_string(fs, "rawDescription"@) is Err {
            Err(sp_string(fs, "rawDescription"@)->Err_0)
        } else if sp_string(fs, "rawDisplayName"@) is Err {
            Err(sp_string(fs, "rawDisplayName"@)->Err_0)
        } else {
            Ok(
                SummonerSpell {
                    display_name: sp_string(fs, "displayName"@)->Ok_0,
                    raw_description: sp_string(fs, "rawDescription"@)->Ok_0,
                    raw_display_name: sp_string(fs, "rawDisplayName"@)->Ok_0,
                },
            )
        },
    }
}

/// Decode a summoner-spell object.
pub fn decode_summoner_spell(fields: &Vec<(String, JsonValue)>) -> (r: Result<
    SummonerSpell,
    DecodeError,
>)
    ensures
        decoded(r) == summoner_spell_from_fields(fields@),
{
    let allowed: [&str; 3] = ["displayName", "rawDescription", "rawDisplayName"];
    proof {
        assert(key_views(allowed@) =~= summoner_spell_keys());
    }
    if let Some(k) = check_keys(fields, &allowed) {
        return Err(DecodeError::SchemaMismatch(k));
    }
    let display_name = get_string(fields, "displayName")?;
    let raw_description = get_string(fields, "rawDescription")?;
    let raw_display_name = get_string(fields, "rawDisplayName")?;
    Ok(SummonerSpell { display_name, raw_description, raw_display_name })
}

/// Specification of a required summoner-spell-valued field.
pub open spec fn sp_spell_field(fs: Seq<(String, JsonValue)>, k: Seq<char>) -> Result<
    SummonerSpell,
    DecodeErrView,
> {
    match sp_obj(fs, k) {
        Ok(o) => summoner_spell_from_fields(o@),
        Err(e) => Err(e),
    }
}

/// Member names the summoner-spells object may carry.
pub open spec fn summoner_spells_keys() -> Seq<Seq<char>> {
    seq!["summonerSpellOne"@, "summonerSpellTwo"@]
}

/// How the summoner-spells object decodes from its members.
pub open spec fn summoner_spells_from_fields(fs: Seq<(String, JsonValue)>) -> Result<
    SummonerSpells,
    DecodeErrView,
> {
    match spec_unknown_key(fs, summoner_spells_keys()) {
        Some(k) => Err(DecodeErrView::SchemaMismatch(k@)),
        None => if sp_spell_field(fs, "summonerSpellOne"@) is Err {
            Err(sp_spell_field(fs, "summonerSpellOne"@)->Err_0)
        } else if sp_spell_field(fs, "summonerSpellTwo"@) is Err {
            Err(sp_spell_field(fs, "summonerSpellTwo"@)->Err_0)
        } else {
            Ok(
                SummonerSpells {
                    summoner_spell_one: sp_spell_field(fs, "summonerSpellOne"@)->Ok_0,
                    summoner_spell_two: sp_spell_field(fs, "summonerSpellTwo"@)->Ok_0,
                },
            )
        },
    }
}

/// Decode the summoner-spells object.
pub fn decode_summoner_spells(fields: &Vec<(String, JsonValue)>) -> (r: Result<
    SummonerSpells,
    DecodeError,
>)
    ensures
        decoded(r) == summoner_spells_from_fields(fields@),
{
    let allowed: [&str; 2] = ["summonerSpellOne", "summonerSpellTwo"];
    proof {
        assert(key_views(allowed@) =~= summoner_spells_keys());
    }
    if let Some(k) = check_keys(fields, &allowed) {
        return Err(DecodeError::SchemaMismatch(k));
    }
    let summoner_spell_one = decode_summoner_spell(get_obj(fields, "summonerSpellOne")?)?;
    let summoner_spell_two = decode_summoner_spell(get_obj(fields, "summonerSpellTwo")?)?;
    Ok(SummonerSpells { summoner_spell_one, summoner_spell_two })
}

/// One listed player. The skin fields are present only in a live game,
/// absent when spectating.
#[derive(Debug, Clone, PartialEq)]
pub struct Player {
    pub champion_name: ChampionName,
    pub is_bot: bool,
    pub is_dead: bool,
    pub items: Vec<PlayerItem>,
    pub level: Level,
    pub position: Position,
    pub raw_champion_name: String,
    pub respawn_timer: Time,
    pub runes: PlayerRunes,
    pub scores: PlayerScores,
    pub raw_skin_name: Option<String>,
    pub skin_name: Option<SkinName>,
    pub skin_id: SkinId,
    pub summoner_name: SummonerName,
    pub summoner_spells: SummonerSpells,
    pub team: TeamId,
}

/// View of `Player`.
pub struct PlayerV {
    pub champion_name: ChampionName,
    pub is_bot: bool,
    pub is_dead: bool,
    pub items: Seq<PlayerItem>,
    pub level: Level,
    pub position: Position,
    pub raw_champion_name: String,
    pub respawn_timer: Time,
    pub runes: PlayerRunes,
    pub scores: PlayerScores,
    pub raw_skin_name: Option<String>,
    pub skin_name: Option<SkinName>,
    pub skin_id: SkinId,
    pub summoner_name: SummonerName,
    pub summoner_spells: SummonerSpells,
    pub team: TeamId,
}

impl View for Player {
    type V = PlayerV;

    open spec fn view(&self) -> PlayerV {
        PlayerV {
            champion_name: self.champion_name,
            is_bot: self.is_bot,
            is_dead: self.is_dead,
            items: self.items@,
            level: self.level,
            position: self.position,
            raw_champion_name: self.raw_champion_name,
            respawn_timer: self.respawn_timer,
            runes: self.runes,
            scores: self.scores,
            raw_skin_name: self.raw_skin_name,
            skin_name: self.skin_name,
            skin_id: self.skin_id,
            summoner_name: self.summoner_name,
            summoner_spells: self.summoner_spells,
            team: self.team,
        }
    }
}

/// Member names a player object may carry; the skin identifier is
/// accepted under either of two casings.
pub open spec fn player_keys() -> Seq<Seq<char>> {
    seq![
        "championName"@,
        "isBot"@,
        "isDead"@,
        "items"@,
        "level"@,
        "position"@,
        "rawChampionName"@,
        "rawSkinName"@,
        "respawnTimer"@,
        "runes"@,
        "scores"@,
        "skinID"@,
        "skinId"@,
        "skinName"@,
        "summonerName"@,
        "summonerSpells"@,
        "team"@,
    ]
}

/// Specification of a required player-runes-valued field.
pub open spec fn sp_player_runes_field(fs: Seq<(String, JsonValue)>, k: Seq<char>) -> Result<
    PlayerRunes,
    DecodeErrView,
> {
    match sp_obj(fs, k) {
        Ok(o) => player_runes_from_fields(o@),
        Err(e) => Err(e),
    }
}

/// Specification of a required scores-valued field.
pub open spec fn sp_scores_field(fs: Seq<(String, JsonValue)>, k: Seq<char>) -> Result<
    PlayerScores,
    DecodeErrView,
> {
    match sp_obj(fs, k) {
        Ok(o) => player_scores_from_fields(o@),
        Err(e) => Err(e),
    }
}

/// Specification of a required summoner-spells-valued field.
pub open spec fn sp_spells_field(fs: Seq<(String, JsonValue)>, k: Seq<char>) -> Result<
    SummonerSpells,
    DecodeErrView,
> {
    match sp_obj(fs, k) {
        Ok(o) => summoner_spells_from_fields(o@),
        Err(e) => Err(e),
    }
}

/// How a player decodes from its object members.
pub open spec fn player_from_fields(fs: Seq<(String, JsonValue)>) -> Result<
    PlayerV,
    DecodeErrView,
> {
    match spec_unknown_key(fs, player_keys()) {
        Some(k) => Err(DecodeErrView::SchemaMismatch(k@)),
        None => if sp_string(fs, "championName"@) is Err {
            Err(sp_string(fs, "championName"@)->Err_0)
        } else if sp_bool(fs, "isBot"@) is Err {
            Err(sp_bool(fs, "isBot"@)->Err_0)
        } else if sp_bool(fs, "isDead"@) is Err {
            Err(sp_bool(fs, "isDead"@)->Err_0)
        } else if sp_item_vec(fs, "items"@) is Err {
            Err(sp_item_vec(fs, "items"@)->Err_0)
        } else if sp_i32(fs, "level"@) is Err {
            Err(sp_i32(fs, "level"@)->Err_0)
        } else if sp_position(fs, "position"@) is Err {
            Err(sp_position(fs, "position"@)->Err_0)
        } else if sp_string(fs, "rawChampionName"@) is Err {
            Err(sp_string(fs, "rawChampionName"@)->Err_0)
        } else if sp_bits(fs, "respawnTimer"@) is Err {
            Err(sp_bits(fs, "respawnTimer"@)->Err_0)
        } else if sp_player_runes_field(fs, "runes"@) is Err {
            Err(sp_player_runes_field(fs, "runes"@)->Err_0)
        } else if sp_scores_field(fs, "scores"@) is Err {
            Err(sp_scores_field(fs, "scores"@)->Err_0)
        } else if sp_opt_string(fs, "rawSkinName"@) is Err {
            Err(sp_opt_string(fs, "rawSkinName"@)->Err_0)
        } else if sp_opt_string(fs, "skinName"@) is Err {
            Err(sp_opt_string(fs, "skinName"@)->Err_0)
        } else if sp_i32_alias(fs, "skinId"@, "skinID"@) is Err {
            Err(sp_i32_alias(fs, "skinId"@, "skinID"@)->Err_0)
        } else if sp_string(fs, "summonerName"@) is Err {
            Err(sp_string(fs, "summonerName"@)->Err_0)
        } else if sp_spells_field(fs, "summonerSpells"@) is Err {
            Err(sp_spells_field(fs, "summonerSpells"@)->Err_0)
        } else if sp_team(fs, "team"@) is Err {
            Err(sp_team(fs, "team"@)->Err_0)
        } else {
            Ok(
                PlayerV {
                    champion_name: sp_string(fs, "championName"@)->Ok_0,
                    is_bot: sp_bool(fs, "isBot"@)->Ok_0,
                    is_dead: sp_bool(fs, "isDead"@)->Ok_0,
                    items: sp_item_vec(fs, "items"@)->Ok_0,
                    level: sp_i32(fs, "level"@)->Ok_0,
                    position: sp_position(fs, "position"@)->Ok_0,
                    raw_champion_name: sp_string(fs, "rawChampionName"@)->Ok_0,
                    respawn_timer: sp_bits(fs, "respawnTimer"@)->Ok_0,
                    runes: sp_player_runes_field(fs, "runes"@)->Ok_0,
                    scores: sp_scores_field(fs, "scores"@)->Ok_0,
                    raw_skin_name: sp_opt_string(fs, "rawSkinName"@)->Ok_0,
                    skin_name: sp_opt_string(fs, "skinName"@)->Ok_0,
                    skin_id: sp_i32_alias(fs, "skinId"@, "skinID"@)->Ok_0,
                    summoner_name: sp_string(fs, "summonerName"@)->Ok_0,
                    summoner_spells: sp_spells_field(fs, "summonerSpells"@)->Ok_0,
                    team: sp_team(fs, "team"@)->Ok_0,
                },
            )
        },
    }
}

/// Decode a player object.
#[verifier::rlimit(60)]
pub fn decode_player(fields: &Vec<(String, JsonValue)>) -> (r: Result<Player, DecodeError>)
    ensures
        match r {
            Ok(x) => player_from_fields(fields@) == Ok::<PlayerV, DecodeErrView>(x@),
            Err(e) => player_from_fields(fields@) == Err::<PlayerV, DecodeErrView>(e@),
        },
{
    let allowed: [&str; 17] = [
        "championName",
        "isBot",
        "isDead",
        "items",
        "level",
        "position",
        "rawChampionName",
        "rawSkinName",
        "respawnTimer",
        "runes",
        "scores",
        "skinID",
        "skinId",
        "skinName",
        "summonerName",
        "summonerSpells",
        "team",
    ];
    proof {
        assert(key_views(allowed@) =~= player_keys());
    }
    if let Some(k) = check_keys(fields, &allowed) {
        return Err(DecodeError::SchemaMismatch(k));
    }
    let champion_name = get_string(fields, "championName")?;
    let is_bot = get_bool(fields, "isBot")?;
    let is_dead = get_bool(fields, "isDead")?;
    let items = get_item_vec(fields, "items")?;
    let level = get_i32(fields, "level")?;
    let position = get_position(fields, "position")?;
    let raw_champion_name = get_string(fields, "rawChampionName")?;
    let respawn_timer = get_bits(fields, "respawnTimer")?;
    let runes = decode_player_runes(get_obj(fields, "runes")?)?;
    let scores = decode_player_scores(get_obj(fields, "scores")?)?;
    let raw_skin_name = get_opt_string(fields, "rawSkinName")?;
    let skin_name = get_opt_string(fields, "skinName")?;
    let skin_id = get_i32_alias(fields, "skinId", "skinID")?;
    let summoner_name = get_string(fields, "summonerName")?;
    let summoner_spells = decode_summoner_spells(get_obj(fields, "summonerSpells")?)?;
    let team = get_team(fields, "team")?;
    Ok(
        Player {
            champion_name,
            is_bot,
            is_dead,
            items,
            level,
            position,
            raw_champion_name,
            respawn_timer,
            runes,
            scores,
            raw_skin_name,
            skin_name,
            skin_id,
            summoner_name,
            summoner_spells,
            team,
        },
    )
}

/// How one array element decodes as a player.
pub open spec fn player_elem(k: Seq<char>) -> spec_fn(JsonValue) -> Result<
    PlayerV,
    DecodeErrView,
> {
    |v: JsonValue|
        match v {
            JsonValue::Obj(o) => player_from_fields(o@),
            _ => Err(DecodeErrView::SchemaMismatch(k)),
        }
}

/// The views of a decoded player list.
pub open spec fn players_view(ps: Seq<Player>) -> Seq<PlayerV> {
    ps.map_values(|p: Player| p@)
}

/// Specification of a required array-of-players field.
pub open spec fn sp_player_vec(fs: Seq<(String, JsonValue)>, k: Seq<char>) -> Result<
    Seq<PlayerV>,
    DecodeErrView,
> {
    match sp_arr(fs, k) {
        Ok(a) => sp_seq_of(a@, player_elem(k)),
        Err(e) => Err(e),
    }
}

/// Decode a required array-of-players field.
pub fn get_player_vec(fields: &Vec<(String, JsonValue)>, k: &str) -> (r: Result<
    Vec<Player>,
    DecodeError,
>)
    ensures
        match r {
            Ok(v) => sp_player_vec(fields@, k@) == Ok::<Seq<PlayerV>, DecodeErrView>(
                players_view(v@),
            ),
            Err(e) => sp_player_vec(fields@, k@) == Err::<Seq<PlayerV>, DecodeErrView>(e@),
        },
{
    let arr = match get_arr(fields, k) {
        Ok(a) => a,
        Err(e) => {
            return Err(e);
        },
    };
    let ghost f = player_elem(k@);
    let mut out: Vec<Player> = Vec::new();
    let mut i: usize = 0;
    while i < arr.len()
        invariant
            0 <= i <= arr@.len(),
            out@.len() == i,
            f == player_elem(k@),
            sp_arr(fields@, k@) == Ok::<Vec<JsonValue>, DecodeErrView>(*arr),
            forall|j: int| 0 <= j < i ==> f(arr@[j]) == Ok::<PlayerV, DecodeErrView>(out@[j]@),
        decreases arr@.len() - i,
    {
        match &arr[i] {
            JsonValue::Obj(o) => match decode_player(o) {
                Ok(x) => {
                    out.push(x);
                },
                Err(e) => {
                    proof {
                        lemma_seq_of_err(arr@, f, i as int, e@);
                    }
                    return Err(e);
                },
            },
            _ => {
                proof {
                    lemma_seq_of_err(arr@, f, i as int, DecodeErrView::SchemaMismatch(k@));
                }
                return Err(mismatch_for(k));
            },
        }
        i += 1;
    }
    proof {
        assert(forall|j: int|
            0 <= j < arr@.len() ==> #[trigger] players_view(out@)[j] == out@[j]@);
        lemma_seq_of_ok(arr@, f, players_view(out@));
    }
    Ok(out)
}

} // verus!
