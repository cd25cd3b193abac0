//! The game-event section: a closed tagged union over fifteen event kinds,
//! the single-key envelope normalizer, and the uniform projections shared
//! by every variant.

use vstd::prelude::*;
use crate::json::{
    check_keys, decoded, get_bits, get_bool_lit, get_i32, get_string, get_string_vec, get_u32,
    key_views, lemma_seq_of_err, lemma_seq_of_ok, mismatch_for, obj_get, sp_bits, sp_bool_lit,
    sp_i32, sp_seq_of, sp_string, sp_string_vec, sp_u32, spec_lookup, spec_unknown_key,
    DecodeErrView, DecodeError, JsonValue,
};
use crate::classify::{dragon_of, killer_of, turret_of, inhibitor_of};
use crate::classify::{DragonType, Inhibitor, Killer, KillerV, Turret};
use crate::team::{sp_team, get_team, TeamId};
use crate::strutil::str_eq;
use crate::{SummonerName, Time};

verus! {

broadcast use vstd::std_specs::control_flow::group_control_flow_axioms;

/// Event sequence number; unique and non-decreasing across a session.
pub type EventId = u32;

/// Kills in the streak a `Multikill` reports.
pub type KillStreak = i32;

/// How a finished game ended.
#[derive(Debug, Clone, Copy, PartialEq, Eq, Structural)]
pub enum GameResult {
    Win,
    Lose,
}

/// Specification of a required game-result field.
pub open spec fn sp_result(fs: Seq<(String, JsonValue)>, k: Seq<char>) -> Result<
    GameResult,
    DecodeErrView,
> {
    match sp_string(fs, k) {
        Ok(s) => if s@ == "Win"@ {
            Ok(GameResult::Win)
        } else if s@ == "Lose"@ {
            Ok(GameResult::Lose)
        } else {
            Err(DecodeErrView::SchemaMismatch(k))
        },
        Err(e) => Err(e),
    }
}

/// Decode a required game-result field. The set of results is closed:
/// anything but `"Win"` or `"Lose"` is a mismatch.
pub fn get_result(fields: &Vec<(String, JsonValue)>, k: &str) -> (r: Result<
    GameResult,
    DecodeError,
>)
    ensures
        decoded(r) == sp_result(fields@, k@),
{
    match obj_get(fields, k) {
        Some(JsonValue::Str(s)) => {
            if str_eq(s.as_str(), "Win") {
                Ok(GameResult::Win)
            } else if str_eq(s.as_str(), "Lose") {
                Ok(GameResult::Lose)
            } else {
                Err(mismatch_for(k))
            }
        },
        _ => Err(mismatch_for(k)),
    }
}

/// Specification of a required kill-source field: any string classifies.
pub open spec fn sp_killer(fs: Seq<(String, JsonValue)>, k: Seq<char>) -> Result<
    KillerV,
    DecodeErrView,
> {
    match sp_string(fs, k) {
        Ok(s) => Ok(killer_of(s@)),
        Err(e) => Err(e),
    }
}

/// Decode a required kill-source field.
pub fn get_killer(fields: &Vec<(String, JsonValue)>, k: &str) -> (r: Result<Killer, DecodeError>)
    ensures
        match r {
            Ok(kl) => sp_killer(fields@, k@) == Ok::<KillerV, DecodeErrView>(kl@),
            Err(e) => sp_killer(fields@, k@) == Err::<KillerV, DecodeErrView>(e@),
        },
{
    match obj_get(fields, k) {
        Some(JsonValue::Str(s)) => match Killer::from_str(s.as_str()) {
            Ok(kl) => Ok(kl),
            Err(_) => Err(mismatch_for(k)),
        },
        _ => Err(mismatch_for(k)),
    }
}

/// Specification of a required dragon-kind field. This field is strict:
/// a token matching no accepted spelling is a `DragonDecodeFailure`.
pub open spec fn sp_dragon(fs: Seq<(String, JsonValue)>, k: Seq<char>) -> Result<
    DragonType,
    DecodeErrView,
> {
    match sp_string(fs, k) {
        Ok(s) => match dragon_of(s@) {
            Some(d) => Ok(d),
            None => Err(DecodeErrView::DragonDecodeFailure(s@)),
        },
        Err(e) => Err(e),
    }
}

/// Decode a required dragon-kind field.
pub fn get_dragon(fields: &Vec<(String, JsonValue)>, k: &str) -> (r: Result<
    DragonType,
    DecodeError,
>)
    ensures
        decoded(r) == sp_dragon(fields@, k@),
{
    match obj_get(fields, k) {
        Some(JsonValue::Str(s)) => match DragonType::from_str(s.as_str()) {
            Ok(d) => Ok(d),
            Err(tok) => Err(DecodeError::DragonDecodeFailure(tok)),
        },
        _ => Err(mismatch_for(k)),
    }
}

/// Specification of a required turret-slot field: any string classifies.
pub open spec fn sp_turret(fs: Seq<(String, JsonValue)>, k: Seq<char>) -> Result<
    Turret,
    DecodeErrView,
> {
    match sp_string(fs, k) {
        Ok(s) => Ok(turret_of(s@)),
        Err(e) => Err(e),
    }
}

/// Decode a required turret-slot field.
pub fn get_turret(fields: &Vec<(String, JsonValue)>, k: &str) -> (r: Result<Turret, DecodeError>)
    ensures
        decoded(r) == sp_turret(fields@, k@),
{
    match obj_get(fields, k) {
        Some(JsonValue::Str(s)) => match Turret::from_str(s.as_str()) {
            Ok(t) => Ok(t),
            Err(_) => Err(mismatch_for(k)),
        },
        _ => Err(mismatch_for(k)),
    }
}

/// Specification of a required inhibitor-slot field: any string
/// classifies.
pub open spec fn sp_inhibitor(fs: Seq<(String, JsonValue)>, k: Seq<char>) -> Result<
    Inhibitor,
    DecodeErrView,
> {
    match sp_string(fs, k) {
        Ok(s) => Ok(inhibitor_of(s@)),
        Err(e) => Err(e),
    }
}

/// Decode a required inhibitor-slot field.
pub fn get_inhibitor(fields: &Vec<(String, JsonValue)>, k: &str) -> (r: Result<
    Inhibitor,
    DecodeError,
>)
    ensures
        decoded(r) == sp_inhibitor(fields@, k@),
{
    match obj_get(fields, k) {
        Some(JsonValue::Str(s)) => match Inhibitor::from_str(s.as_str()) {
            Ok(i) => Ok(i),
            Err(_) => Err(mismatch_for(k)),
        },
        _ => Err(mismatch_for(k)),
    }
}

/// A team aced the other.
#[derive(Debug, Clone, PartialEq)]
pub struct Ace {
    pub acer: SummonerName,
    pub acing_team: TeamId,
    pub event_id: EventId,
    pub event_time: Time,
}

/// Baron Nashor was killed.
#[derive(Debug, Clone, PartialEq)]
pub struct BaronKill {
    pub assisters: Vec<SummonerName>,
    pub event_id: EventId,
    pub event_time: Time,
    pub killer_name: Killer,
    pub stolen: bool,
}

/// A champion was killed.
#[derive(Debug, Clone, PartialEq)]
pub struct ChampionKill {
    pub assisters: Vec<SummonerName>,
    pub event_id: EventId,
    pub event_time: Time,
    pub killer_name: Killer,
    pub victim_name: SummonerName,
}

/// A dragon was killed.
#[derive(Debug, Clone, PartialEq)]
pub struct DragonKill {
    pub assisters: Vec<String>,
    pub dragon_type: DragonType,
    pub event_id: EventId,
    pub event_time: Time,
    pub killer_name: Killer,
    pub stolen: bool,
}

/// The first champion kill of the game.
#[derive(Debug, Clone, PartialEq)]
pub struct FirstBlood {
    pub event_id: EventId,
    pub event_time: Time,
    pub recipient: String,
}

/// The first turret kill of the game.
#[derive(Debug, Clone, PartialEq)]
pub struct FirstBrick {
    pub event_id: EventId,
    pub event_time: Time,
    pub killer_name: Killer,
}

/// The game ended.
#[derive(Debug, Clone, PartialEq)]
pub struct GameEnd {
    pub event_id: EventId,
    pub event_time: Time,
    pub result: GameResult,
}

/// The game started.
#[derive(Debug, Clone, PartialEq)]
pub struct GameStart {
    pub event_id: EventId,
    pub event_time: Time,
}

/// The Rift Herald was killed.
#[derive(Debug, Clone, PartialEq)]
pub struct HeraldKill {
    pub assisters: Vec<String>,
    pub event_id: EventId,
    pub event_time: Time,
    pub killer_name: Killer,
    pub stolen: bool,
}

/// An inhibitor was killed.
#[derive(Debug, Clone, PartialEq)]
pub struct InhibKilled {
    pub assisters: Vec<String>,
    pub event_id: EventId,
    pub event_time: Time,
    pub inhib_killed: Inhibitor,
    pub killer_name: Killer,
}

/// An inhibitor respawned.
#[derive(Debug, Clone, PartialEq)]
pub struct InhibRespawned {
    pub event_id: EventId,
    pub event_time: Time,
    pub inhib_respawned: Inhibitor,
}

/// An inhibitor is about to respawn.
#[derive(Debug, Clone, PartialEq)]
pub struct InhibRespawningSoon {
    pub event_id: EventId,
    pub event_time: Time,
    pub inhib_respawning_soon: Inhibitor,
}

/// Minions are about to spawn.
#[derive(Debug, Clone, PartialEq)]
pub struct MinionsSpawning {
    pub event_id: EventId,
    pub event_time: Time,
}

/// A champion scored a kill streak.
#[derive(Debug, Clone, PartialEq)]
pub struct Multikill {
    pub event_id: EventId,
    pub event_time: Time,
    pub kill_streak: KillStreak,
    pub killer_name: SummonerName,
}

/// A turret was killed.
#[derive(Debug, Clone, PartialEq)]
pub struct TurretKilled {
    pub assisters: Vec<String>,
    pub event_id: EventId,
    pub event_time: Time,
    pub killer_name: Killer,
    pub turret_killed: Turret,
}

/// View of `BaronKill`.
pub struct BaronKillV {
    pub assisters: Seq<String>,
    pub event_id: EventId,
    pub event_time: Time,
    pub killer_name: KillerV,
    pub stolen: bool,
}

/// View of `ChampionKill`.
pub struct ChampionKillV {
    pub assisters: Seq<String>,
    pub event_id: EventId,
    pub event_time: Time,
    pub killer_name: KillerV,
    pub victim_name: SummonerName,
}

/// View of `DragonKill`.
pub struct DragonKillV {
    pub assisters: Seq<String>,
    pub dragon_type: DragonType,
    pub event_id: EventId,
    pub event_time: Time,
    pub killer_name: KillerV,
    pub stolen: bool,
}

/// View of `FirstBrick`.
pub struct FirstBrickV {
    pub event_id: EventId,
    pub event_time: Time,
    pub killer_name: KillerV,
}

/// View of `HeraldKill`.
pub struct HeraldKillV {
    pub assisters: Seq<String>,
    pub event_id: EventId,
    pub event_time: Time,
    pub killer_name: KillerV,
    pub stolen: bool,
}

/// View of `InhibKilled`.
pub struct InhibKilledV {
    pub assisters: Seq<String>,
    pub event_id: EventId,
    pub event_time: Time,
    pub inhib_killed: Inhibitor,
    pub killer_name: KillerV,
}

/// View of `TurretKilled`.
pub struct TurretKilledV {
    pub assisters: Seq<String>,
    pub event_id: EventId,
    pub event_time: Time,
    pub killer_name: KillerV,
    pub turret_killed: Turret,
}

impl View for BaronKill {
    type V = BaronKillV;

    open spec fn view(&self) -> BaronKillV {
        BaronKillV {
            assisters: self.assisters@,
            event_id: self.event_id,
            event_time: self.event_time,
            killer_name: self.killer_name@,
            stolen: self.stolen,
        }
    }
}

impl View for ChampionKill {
    type V = ChampionKillV;

    open spec fn view(&self) -> ChampionKillV {
        ChampionKillV {
            assisters: self.assisters@,
            event_id: self.event_id,
            event_time: self.event_time,
            killer_name: self.killer_name@,
            victim_name: self.victim_name,
        }
    }
}

impl View for DragonKill {
    type V = DragonKillV;

    open spec fn view(&self) -> DragonKillV {
        DragonKillV {
            assisters: self.assisters@,
            dragon_type: self.dragon_type,
            event_id: self.event_id,
            event_time: self.event_time,
            killer_name: self.killer_name@,
            stolen: self.stolen,
        }
    }
}

impl View for FirstBrick {
    type V = FirstBrickV;

    open spec fn view(&self) -> FirstBrickV {
        FirstBrickV {
            event_id: self.event_id,
            event_time: self.event_time,
            killer_name: self.killer_name@,
        }
    }
}

impl View for HeraldKill {
    type V = HeraldKillV;

    open spec fn view(&self) -> HeraldKillV {
        HeraldKillV {
            assisters: self.assisters@,
            event_id: self.event_id,
            event_time: self.event_time,
            killer_name: self.killer_name@,
            stolen: self.stolen,
        }
    }
}

impl View for InhibKilled {
    type V = InhibKilledV;

    open spec fn view(&self) -> InhibKilledV {
        InhibKilledV {
            assisters: self.assisters@,
            event_id: self.event_id,
            event_time: self.event_time,
            inhib_killed: self.inhib_killed,
            killer_name: self.killer_name@,
        }
    }
}

impl View for TurretKilled {
    type V = TurretKilledV;

    open spec fn view(&self) -> TurretKilledV {
        TurretKilledV {
            assisters: self.assisters@,
            event_id: self.event_id,
            event_time: self.event_time,
            killer_name: self.killer_name@,
            turret_killed: self.turret_killed,
        }
    }
}

/// One game event: a closed tagged union. The upstream discriminant field
/// selects the variant; an unrecognized discriminant is a hard decode
/// failure.
#[derive(Debug, Clone, PartialEq)]
pub enum GameEvent {
    Ace(Ace),
    BaronKill(BaronKill),
    ChampionKill(ChampionKill),
    DragonKill(DragonKill),
    FirstBlood(FirstBlood),
    FirstBrick(FirstBrick),
    GameEnd(GameEnd),
    GameStart(GameStart),
    HeraldKill(HeraldKill),
    InhibKilled(InhibKilled),
    InhibRespawned(InhibRespawned),
    InhibRespawningSoon(InhibRespawningSoon),
    MinionsSpawning(MinionsSpawning),
    Multikill(Multikill),
    TurretKilled(TurretKilled),
}

/// View of `GameEvent`.
pub enum GameEventV {
    Ace(Ace),
    BaronKill(BaronKillV),
    ChampionKill(ChampionKillV),
    DragonKill(DragonKillV),
    FirstBlood(FirstBlood),
    FirstBrick(FirstBrickV),
    GameEnd(GameEnd),
    GameStart(GameStart),
    HeraldKill(HeraldKillV),
    InhibKilled(InhibKilledV),
    InhibRespawned(InhibRespawned),
    InhibRespawningSoon(InhibRespawningSoon),
    MinionsSpawning(MinionsSpawning),
    Multikill(Multikill),
    TurretKilled(TurretKilledV),
}

impl View for GameEvent {
    type V = GameEventV;

    open spec fn view(&self) -> GameEventV {
        match self {
            GameEvent::Ace(e) => GameEventV::Ace(*e),
            GameEvent::BaronKill(e) => GameEventV::BaronKill(e@),
            GameEvent::ChampionKill(e) => GameEventV::ChampionKill(e@),
            GameEvent::DragonKill(e) => GameEventV::DragonKill(e@),
            GameEvent::FirstBlood(e) => GameEventV::FirstBlood(*e),
            GameEvent::FirstBrick(e) => GameEventV::FirstBrick(e@),
            GameEvent::GameEnd(e) => GameEventV::GameEnd(*e),
            GameEvent::GameStart(e) => GameEventV::GameStart(*e),
            GameEvent::HeraldKill(e) => GameEventV::HeraldKill(e@),
            GameEvent::InhibKilled(e) => GameEventV::InhibKilled(e@),
            GameEvent::InhibRespawned(e) => GameEventV::InhibRespawned(*e),
            GameEvent::InhibRespawningSoon(e) => GameEventV::InhibRespawningSoon(*e),
            GameEvent::MinionsSpawning(e) => GameEventV::MinionsSpawning(*e),
            GameEvent::Multikill(e) => GameEventV::Multikill(*e),
            GameEvent::TurretKilled(e) => GameEventV::TurretKilled(e@),
        }
    }
}

/// Member names an `Ace` event object may carry.
pub open spec fn ace_keys() -> Seq<Seq<char>> {
    seq!["Acer"@, "AcingTeam"@, "EventID"@, "EventName"@, "EventTime"@]
}

/// How an `Ace` event decodes from its object members.
pub open spec fn ace_from_fields(fs: Seq<(String, JsonValue)>) -> Result<Ace, DecodeErrView> {
    match spec_unknown_key(fs, ace_keys()) {
        Some(k) => Err(DecodeErrView::SchemaMismatch(k@)),
        None => if sp_string(fs, "Acer"@) is Err {
            Err(sp_string(fs, "Acer"@)->Err_0)
        } else if sp_team(fs, "AcingTeam"@) is Err {
            Err(sp_team(fs, "AcingTeam"@)->Err_0)
        } else if sp_u32(fs, "EventID"@) is Err {
            Err(sp_u32(fs, "EventID"@)->Err_0)
        } else if sp_bits(fs, "EventTime"@) is Err {
            Err(sp_bits(fs, "EventTime"@)->Err_0)
        } else {
            Ok(
                Ace {
                    acer: sp_string(fs, "Acer"@)->Ok_0,
                    acing_team: sp_team(fs, "AcingTeam"@)->Ok_0,
                    event_id: sp_u32(fs, "EventID"@)->Ok_0,
                    event_time: sp_bits(fs, "EventTime"@)->Ok_0,
                },
            )
        },
    }
}

/// Decode an `Ace` event.
pub fn decode_ace(fields: &Vec<(String, JsonValue)>) -> (r: Result<Ace, DecodeError>)
    ensures
        decoded(r) == ace_from_fields(fields@),
{
    let allowed: [&str; 5] = ["Acer", "AcingTeam", "EventID", "EventName", "EventTime"];
    proof {
        assert(key_views(allowed@) =~= ace_keys());
    }
    if let Some(k) = check_keys(fields, &allowed) {
        return Err(DecodeError::SchemaMismatch(k));
    }
    let acer = get_string(fields, "Acer")?;
    let acing_team = get_team(fields, "AcingTeam")?;
    let event_id = get_u32(fields, "EventID")?;
    let event_time = get_bits(fields, "EventTime")?;
    Ok(Ace { acer, acing_team, event_id, event_time })
}

/// Member names a `BaronKill` event object may carry.
pub open spec fn baron_kill_keys() -> Seq<Seq<char>> {
    seq!["Assisters"@, "EventID"@, "EventName"@, "EventTime"@, "KillerName"@, "Stolen"@]
}

/// How a `BaronKill` event decodes from its object members.
pub open spec fn baron_kill_from_fields(fs: Seq<(String, JsonValue)>) -> Result<
    BaronKillV,
    DecodeErrView,
> {
    match spec_unknown_key(fs, baron_kill_keys()) {
        Some(k) => Err(DecodeErrView::SchemaMismatch(k@)),
        None => if sp_string_vec(fs, "Assisters"@) is Err {
            Err(sp_string_vec(fs, "Assisters"@)->Err_0)
        } else if sp_u32(fs, "EventID"@) is Err {
            Err(sp_u32(fs, "EventID"@)->Err_0)
        } else if sp_bits(fs, "EventTime"@) is Err {
            Err(sp_bits(fs, "EventTime"@)->Err_0)
        } else if sp_killer(fs, "KillerName"@) is Err {
            Err(sp_killer(fs, "KillerName"@)->Err_0)
        } else if sp_bool_lit(fs, "Stolen"@) is Err {
            Err(sp_bool_lit(fs, "Stolen"@)->Err_0)
        } else {
            Ok(
                BaronKillV {
                    assisters: sp_string_vec(fs, "Assisters"@)->Ok_0,
                    event_id: sp_u32(fs, "EventID"@)->Ok_0,
                    event_time: sp_bits(fs, "EventTime"@)->Ok_0,
                    killer_name: sp_killer(fs, "KillerName"@)->Ok_0,
                    stolen: sp_bool_lit(fs, "Stolen"@)->Ok_0,
                },
            )
        },
    }
}

/// Decode a `BaronKill` event.
pub fn decode_baron_kill(fields: &Vec<(String, JsonValue)>) -> (r: Result<BaronKill, DecodeError>)
    ensures
        match r {
            Ok(x) => baron_kill_from_fields(fields@) == Ok::<BaronKillV, DecodeErrView>(x@),
            Err(e) => baron_kill_from_fields(fields@) == Err::<BaronKillV, DecodeErrView>(e@),
        },
{
    let allowed: [&str; 6] = [
        "Assisters",
        "EventID",
        "EventName",
        "EventTime",
        "KillerName",
        "Stolen",
    ];
    proof {
        assert(key_views(allowed@) =~= baron_kill_keys());
    }
    if let Some(k) = check_keys(fields, &allowed) {
        return Err(DecodeError::SchemaMismatch(k));
    }
    let assisters = get_string_vec(fields, "Assisters")?;
    let event_id = get_u32(fields, "EventID")?;
    let event_time = get_bits(fields, "EventTime")?;
    let killer_name = get_killer(fields, "KillerName")?;
    let stolen = get_bool_lit(fields, "Stolen")?;
    Ok(BaronKill { assisters, event_id, event_time, killer_name, stolen })
}

/// Member names a `ChampionKill` event object may carry.
pub open spec fn champion_kill_keys() -> Seq<Seq<char>> {
    seq!["Assisters"@, "EventID"@, "EventName"@, "EventTime"@, "KillerName"@, "VictimName"@]
}

/// How a `ChampionKill` event decodes from its object members.
pub open spec fn champion_kill_from_fields(fs: Seq<(String, JsonValue)>) -> Result<
    ChampionKillV,
    DecodeErrView,
> {
    match spec_unknown_key(fs, champion_kill_keys()) {
        Some(k) => Err(DecodeErrView::SchemaMismatch(k@)),
        None => if sp_string_vec(fs, "Assisters"@) is Err {
            Err(sp_string_vec(fs, "Assisters"@)->Err_0)
        } else if sp_u32(fs, "EventID"@) is Err {
            Err(sp_u32(fs, "EventID"@)->Err_0)
        } else if sp_bits(fs, "EventTime"@) is Err {
            Err(sp_bits(fs, "EventTime"@)->Err_0)
        } else if sp_killer(fs, "KillerName"@) is Err {
            Err(sp_killer(fs, "KillerName"@)->Err_0)
        } else if sp_string(fs, "VictimName"@) is Err {
            Err(sp_string(fs, "VictimName"@)->Err_0)
        } else {
            Ok(
                ChampionKillV {
                    assisters: sp_string_vec(fs, "Assisters"@)->Ok_0,
                    event_id: sp_u32(fs, "EventID"@)->Ok_0,
                    event_time: sp_bits(fs, "EventTime"@)->Ok_0,
                    killer_name: sp_killer(fs, "KillerName"@)->Ok_0,
                    victim_name: sp_string(fs, "VictimName"@)->Ok_0,
                },
            )
        },
    }
}

/// Decode a `ChampionKill` event.
pub fn decode_champion_kill(fields: &Vec<(String, JsonValue)>) -> (r: Result<
    ChampionKill,
    DecodeError,
>)
    ensures
        match r {
            Ok(x) => champion_kill_from_fields(fields@) == Ok::<ChampionKillV, DecodeErrView>(x@),
            Err(e) => champion_kill_from_fields(fields@) == Err::<ChampionKillV, DecodeErrView>(
                e@,
            ),
        },
{
    let allowed: [&str; 6] = [
        "Assisters",
        "EventID",
        "EventName",
        "EventTime",
        "KillerName",
        "VictimName",
    ];
    proof {
        assert(key_views(allowed@) =~= champion_kill_keys());
    }
    if let Some(k) = check_keys(fields, &allowed) {
        return Err(DecodeError::SchemaMismatch(k));
    }
    let assisters = get_string_vec(fields, "Assisters")?;
    let event_id = get_u32(fields, "EventID")?;
    let event_time = get_bits(fields, "EventTime")?;
    let killer_name = get_killer(fields, "KillerName")?;
    let victim_name = get_string(fields, "VictimName")?;
    Ok(ChampionKill { assisters, event_id, event_time, killer_name, victim_name })
}

/// Member names a `DragonKill` event object may carry.
pub open spec fn dragon_kill_keys() -> Seq<Seq<char>> {
    seq![
        "Assisters"@,
        "DragonType"@,
        "EventID"@,
        "EventName"@,
        "EventTime"@,
        "KillerName"@,
        "Stolen"@,
    ]
}

/// How a `DragonKill` event decodes from its object members.
pub open spec fn dragon_kill_from_fields(fs: Seq<(String, JsonValue)>) -> Result<
    DragonKillV,
    DecodeErrView,
> {
    match spec_unknown_key(fs, dragon_kill_keys()) {
        Some(k) => Err(DecodeErrView::SchemaMismatch(k@)),
        None => if sp_string_vec(fs, "Assisters"@) is Err {
            Err(sp_string_vec(fs, "Assisters"@)->Err_0)
        } else if sp_dragon(fs, "DragonType"@) is Err {
            Err(sp_dragon(fs, "DragonType"@)->Err_0)
        } else if sp_u32(fs, "EventID"@) is Err {
            Err(sp_u32(fs, "EventID"@)->Err_0)
        } else if sp_bits(fs, "EventTime"@) is Err {
            Err(sp_bits(fs, "EventTime"@)->Err_0)
        } else if sp_killer(fs, "KillerName"@) is Err {
            Err(sp_killer(fs, "KillerName"@)->Err_0)
        } else if sp_bool_lit(fs, "Stolen"@) is Err {
            Err(sp_bool_lit(fs, "Stolen"@)->Err_0)
        } else {
            Ok(
                DragonKillV {
                    assisters: sp_string_vec(fs, "Assisters"@)->Ok_0,
                    dragon_type: sp_dragon(fs, "DragonType"@)->Ok_0,
                    event_id: sp_u32(fs, "EventID"@)->Ok_0,
                    event_time: sp_bits(fs, "EventTime"@)->Ok_0,
                    killer_name: sp_killer(fs, "KillerName"@)->Ok_0,
                    stolen: sp_bool_lit(fs, "Stolen"@)->Ok_0,
                },
            )
        },
    }
}

/// Decode a `DragonKill` event.
pub fn decode_dragon_kill(fields: &Vec<(String, JsonValue)>) -> (r: Result<
    DragonKill,
    DecodeError,
>)
    ensures
        match r {
            Ok(x) => dragon_kill_from_fields(fields@) == Ok::<DragonKillV, DecodeErrView>(x@),
            Err(e) => dragon_kill_from_fields(fields@) == Err::<DragonKillV, DecodeErrView>(e@),
        },
{
    let allowed: [&str; 7] = [
        "Assisters",
        "DragonType",
        "EventID",
        "EventName",
        "EventTime",
        "KillerName",
        "Stolen",
    ];
    proof {
        assert(key_views(allowed@) =~= dragon_kill_keys());
    }
    if let Some(k) = check_keys(fields, &allowed) {
        return Err(DecodeError::SchemaMismatch(k));
    }
    let assisters = get_string_vec(fields, "Assisters")?;
    let dragon_type = get_dragon(fields, "DragonType")?;
    let event_id = get_u32(fields, "EventID")?;
    let event_time = get_bits(fields, "EventTime")?;
    let killer_name = get_killer(fields, "KillerName")?;
    let stolen = get_bool_lit(fields, "Stolen")?;
    Ok(DragonKill { assisters, dragon_type, event_id, event_time, killer_name, stolen })
}

/// Member names a `FirstBlood` event object may carry.
pub open spec fn first_blood_keys() -> Seq<Seq<char>> {
    seq!["EventID"@, "EventName"@, "EventTime"@, "Recipient"@]
}

/// How a `FirstBlood` event decodes from its object members.
pub open spec fn first_blood_from_fields(fs: Seq<(String, JsonValue)>) -> Result<
    FirstBlood,
    DecodeErrView,
> {
    match spec_unknown_key(fs, first_blood_keys()) {
        Some(k) => Err(DecodeErrView::SchemaMismatch(k@)),
        None => if sp_u32(fs, "EventID"@) is Err {
            Err(sp_u32(fs, "EventID"@)->Err_0)
        } else if sp_bits(fs, "EventTime"@) is Err {
            Err(sp_bits(fs, "EventTime"@)->Err_0)
        } else if sp_string(fs, "Recipient"@) is Err {
            Err(sp_string(fs, "Recipient"@)->Err_0)
        } else {
            Ok(
                FirstBlood {
                    event_id: sp_u32(fs, "EventID"@)->Ok_0,
                    event_time: sp_bits(fs, "EventTime"@)->Ok_0,
                    recipient: sp_string(fs, "Recipient"@)->Ok_0,
                },
            )
        },
    }
}

/// Decode a `FirstBlood` event.
pub fn decode_first_blood(fields: &Vec<(String, JsonValue)>) -> (r: Result<
    FirstBlood,
    DecodeError,
>)
    ensures
        decoded(r) == first_blood_from_fields(fields@),
{
    let allowed: [&str; 4] = ["EventID", "EventName", "EventTime", "Recipient"];
    proof {
        assert(key_views(allowed@) =~= first_blood_keys());
    }
    if let Some(k) = check_keys(fields, &allowed) {
        return Err(DecodeError::SchemaMismatch(k));
    }
    let event_id = get_u32(fields, "EventID")?;
    let event_time = get_bits(fields, "EventTime")?;
    let recipient = get_string(fields, "Recipient")?;
    Ok(FirstBlood { event_id, event_time, recipient })
}

/// Member names a `FirstBrick` event object may carry.
pub open spec fn first_brick_keys() -> Seq<Seq<char>> {
    seq!["EventID"@, "EventName"@, "EventTime"@, "KillerName"@]
}

/// How a `FirstBrick` event decodes from its object members.
pub open spec fn first_brick_from_fields(fs: Seq<(String, JsonValue)>) -> Result<
    FirstBrickV,
    DecodeErrView,
> {
    match spec_unknown_key(fs, first_brick_keys()) {
        Some(k) => Err(DecodeErrView::SchemaMismatch(k@)),
        None => if sp_u32(fs, "EventID"@) is Err {
            Err(sp_u32(fs, "EventID"@)->Err_0)
        } else if sp_bits(fs, "EventTime"@) is Err {
            Err(sp_bits(fs, "EventTime"@)->Err_0)
        } else if sp_killer(fs, "KillerName"@) is Err {
            Err(sp_killer(fs, "KillerName"@)->Err_0)
        } else {
            Ok(
                FirstBrickV {
                    event_id: sp_u32(fs, "EventID"@)->Ok_0,
                    event_time: sp_bits(fs, "EventTime"@)->Ok_0,
                    killer_name: sp_killer(fs, "KillerName"@)->Ok_0,
                },
            )
        },
    }
}

/// Decode a `FirstBrick` event.
pub fn decode_first_brick(fields: &Vec<(String, JsonValue)>) -> (r: Result<
    FirstBrick,
    DecodeError,
>)
    ensures
        match r {
            Ok(x) => first_brick_from_fields(fields@) == Ok::<FirstBrickV, DecodeErrView>(x@),
            Err(e) => first_brick_from_fields(fields@) == Err::<FirstBrickV, DecodeErrView>(e@),
        },
{
    let allowed: [&str; 4] = ["EventID", "EventName", "EventTime", "KillerName"];
    proof {
        assert(key_views(allowed@) =~= first_brick_keys());
    }
    if let Some(k) = check_keys(fields, &allowed) {
        return Err(DecodeError::SchemaMismatch(k));
    }
    let event_id = get_u32(fields, "EventID")?;
    let event_time = get_bits(fields, "EventTime")?;
    let killer_name = get_killer(fields, "KillerName")?;
    Ok(FirstBrick { event_id, event_time, killer_name })
}

/// Member names a `GameEnd` event object may carry.
pub open spec fn game_end_keys() -> Seq<Seq<char>> {
    seq!["EventID"@, "EventName"@, "EventTime"@, "Result"@]
}

/// How a `GameEnd` event decodes from its object members.
pub open spec fn game_end_from_fields(fs: Seq<(String, JsonValue)>) -> Result<
    GameEnd,
    DecodeErrView,
> {
    match spec_unknown_key(fs, game_end_keys()) {
        Some(k) => Err(DecodeErrView::SchemaMismatch(k@)),
        None => if sp_u32(fs, "EventID"@) is Err {
            Err(sp_u32(fs, "EventID"@)->Err_0)
        } else if sp_bits(fs, "EventTime"@) is Err {
            Err(sp_bits(fs, "EventTime"@)->Err_0)
        } else if sp_result(fs, "Result"@) is Err {
            Err(sp_result(fs, "Result"@)->Err_0)
        } else {
            Ok(
                GameEnd {
                    event_id: sp_u32(fs, "EventID"@)->Ok_0,
                    event_time: sp_bits(fs, "EventTime"@)->Ok_0,
                    result: sp_result(fs, "Result"@)->Ok_0,
                },
            )
        },
    }
}

/// Decode a `GameEnd` event.
pub fn decode_game_end(fields: &Vec<(String, JsonValue)>) -> (r: Result<GameEnd, DecodeError>)
    ensures
        decoded(r) == game_end_from_fields(fields@),
{
    let allowed: [&str; 4] = ["EventID", "EventName", "EventTime", "Result"];
    proof {
        assert(key_views(allowed@) =~= game_end_keys());
    }
    if let Some(k) = check_keys(fields, &allowed) {
        return Err(DecodeError::SchemaMismatch(k));
    }
    let event_id = get_u32(fields, "EventID")?;
    let event_time = get_bits(fields, "EventTime")?;
    let result = get_result(fields, "Result")?;
    Ok(GameEnd { event_id, event_time, result })
}

/// Member names a `GameStart` event object may carry.
pub open spec fn game_start_keys() -> Seq<Seq<char>> {
    seq!["EventID"@, "EventName"@, "EventTime"@]
}

/// How a `GameStart` event decodes from its object members.
pub open spec fn game_start_from_fields(fs: Seq<(String, JsonValue)>) -> Result<
    GameStart,
    DecodeErrView,
> {
    match spec_unknown_key(fs, game_start_keys()) {
        Some(k) => Err(DecodeErrView::SchemaMismatch(k@)),
        None => if sp_u32(fs, "EventID"@) is Err {
            Err(sp_u32(fs, "EventID"@)->Err_0)
        } else if sp_bits(fs, "EventTime"@) is Err {
            Err(sp_bits(fs, "EventTime"@)->Err_0)
        } else {
            Ok(
                GameStart {
                    event_id: sp_u32(fs, "EventID"@)->Ok_0,
                    event_time: sp_bits(fs, "EventTime"@)->Ok_0,
                },
            )
        },
    }
}

/// Decode a `GameStart` event.
pub fn decode_game_start(fields: &Vec<(String, JsonValue)>) -> (r: Result<GameStart, DecodeError>)
    ensures
        decoded(r) == game_start_from_fields(fields@),
{
    let allowed: [&str; 3] = ["EventID", "EventName", "EventTime"];
    proof {
        assert(key_views(allowed@) =~= game_start_keys());
    }
    if let Some(k) = check_keys(fields, &allowed) {
        return Err(DecodeError::SchemaMismatch(k));
    }
    let event_id = get_u32(fields, "EventID")?;
    let event_time = get_bits(fields, "EventTime")?;
    Ok(GameStart { event_id, event_time })
}

/// Member names a `HeraldKill` event object may carry.
pub open spec fn herald_kill_keys() -> Seq<Seq<char>> {
    seq!["Assisters"@, "EventID"@, "EventName"@, "EventTime"@, "KillerName"@, "Stolen"@]
}

/// How a `HeraldKill` event decodes from its object members.
pub open spec fn herald_kill_from_fields(fs: Seq<(String, JsonValue)>) -> Result<
    HeraldKillV,
    DecodeErrView,
> {
    match spec_unknown_key(fs, herald_kill_keys()) {
        Some(k) => Err(DecodeErrView::SchemaMismatch(k@)),
        None => if sp_string_vec(fs, "Assisters"@) is Err {
            Err(sp_string_vec(fs, "Assisters"@)->Err_0)
        } else if sp_u32(fs, "EventID"@) is Err {
            Err(sp_u32(fs, "EventID"@)->Err_0)
        } else if sp_bits(fs, "EventTime"@) is Err {
            Err(sp_bits(fs, "EventTime"@)->Err_0)
        } else if sp_killer(fs, "KillerName"@) is Err {
            Err(sp_killer(fs, "KillerName"@)->Err_0)
        } else if sp_bool_lit(fs, "Stolen"@) is Err {
            Err(sp_bool_lit(fs, "Stolen"@)->Err_0)
        } else {
            Ok(
                HeraldKillV {
                    assisters: sp_string_vec(fs, "Assisters"@)->Ok_0,
                    event_id: sp_u32(fs, "EventID"@)->Ok_0,
                    event_time: sp_bits(fs, "EventTime"@)->Ok_0,
                    killer_name: sp_killer(fs, "KillerName"@)->Ok_0,
                    stolen: sp_bool_lit(fs, "Stolen"@)->Ok_0,
                },
            )
        },
    }
}

/// Decode a `HeraldKill` event.
pub fn decode_herald_kill(fields: &Vec<(String, JsonValue)>) -> (r: Result<
    HeraldKill,
    DecodeError,
>)
    ensures
        match r {
            Ok(x) => herald_kill_from_fields(fields@) == Ok::<HeraldKillV, DecodeErrView>(x@),
            Err(e) => herald_kill_from_fields(fields@) == Err::<HeraldKillV, DecodeErrView>(e@),
        },
{
    let allowed: [&str; 6] = [
        "Assisters",
        "EventID",
        "EventName",
        "EventTime",
        "KillerName",
        "Stolen",
    ];
    proof {
        assert(key_views(allowed@) =~= herald_kill_keys());
    }
    if let Some(k) = check_keys(fields, &allowed) {
        return Err(DecodeError::SchemaMismatch(k));
    }
    let assisters = get_string_vec(fields, "Assisters")?;
    let event_id = get_u32(fields, "EventID")?;
    let event_time = get_bits(fields, "EventTime")?;
    let killer_name = get_killer(fields, "KillerName")?;
    let stolen = get_bool_lit(fields, "Stolen")?;
    Ok(HeraldKill { assisters, event_id, event_time, killer_name, stolen })
}

/// Member names an `InhibKilled` event object may carry.
pub open spec fn inhib_killed_keys() -> Seq<Seq<char>> {
    seq!["Assisters"@, "EventID"@, "EventName"@, "EventTime"@, "InhibKilled"@, "KillerName"@]
}

/// How an `InhibKilled` event decodes from its object members.
pub open spec fn inhib_killed_from_fields(fs: Seq<(String, JsonValue)>) -> Result<
    InhibKilledV,
    DecodeErrView,
> {
    match spec_unknown_key(fs, inhib_killed_keys()) {
        Some(k) => Err(DecodeErrView::SchemaMismatch(k@)),
        None => if sp_string_vec(fs, "Assisters"@) is Err {
            Err(sp_string_vec(fs, "Assisters"@)->Err_0)
        } else if sp_u32(fs, "EventID"@) is Err {
            Err(sp_u32(fs, "EventID"@)->Err_0)
        } else if sp_bits(fs, "EventTime"@) is Err {
            Err(sp_bits(fs, "EventTime"@)->Err_0)
        } else if sp_inhibitor(fs, "InhibKilled"@) is Err {
            Err(sp_inhibitor(fs, "InhibKilled"@)->Err_0)
        } else if sp_killer(fs, "KillerName"@) is Err {
            Err(sp_killer(fs, "KillerName"@)->Err_0)
        } else {
            Ok(
                InhibKilledV {
                    assisters: sp_string_vec(fs, "Assisters"@)->Ok_0,
                    event_id: sp_u32(fs, "EventID"@)->Ok_0,
                    event_time: sp_bits(fs, "EventTime"@)->Ok_0,
                    inhib_killed: sp_inhibitor(fs, "InhibKilled"@)->Ok_0,
                    killer_name: sp_killer(fs, "KillerName"@)->Ok_0,
                },
            )
        },
    }
}

/// Decode an `InhibKilled` event.
pub fn decode_inhib_killed(fields: &Vec<(String, JsonValue)>) -> (r: Result<
    InhibKilled,
    DecodeError,
>)
    ensures
        match r {
            Ok(x) => inhib_killed_from_fields(fields@) == Ok::<InhibKilledV, DecodeErrView>(x@),
            Err(e) => inhib_killed_from_fields(fields@) == Err::<InhibKilledV, DecodeErrView>(e@),
        },
{
    let allowed: [&str; 6] = [
        "Assisters",
        "EventID",
        "EventName",
        "EventTime",
        "InhibKilled",
        "KillerName",
    ];
    proof {
        assert(key_views(allowed@) =~= inhib_killed_keys());
    }
    if let Some(k) = check_keys(fields, &allowed) {
        return Err(DecodeError::SchemaMismatch(k));
    }
    let assisters = get_string_vec(fields, "Assisters")?;
    let event_id = get_u32(fields, "EventID")?;
    let event_time = get_bits(fields, "EventTime")?;
    let inhib_killed = get_inhibitor(fields, "InhibKilled")?;
    let killer_name = get_killer(fields, "KillerName")?;
    Ok(InhibKilled { assisters, event_id, event_time, inhib_killed, killer_name })
}

/// Member names an `InhibRespawned` event object may carry.
pub open spec fn inhib_respawned_keys() -> Seq<Seq<char>> {
    seq!["EventID"@, "EventName"@, "EventTime"@, "InhibRespawned"@]
}

/// How an `InhibRespawned` event decodes from its object members.
pub open spec fn inhib_respawned_from_fields(fs: Seq<(String, JsonValue)>) -> Result<
    InhibRespawned,
    DecodeErrView,
> {
    match spec_unknown_key(fs, inhib_respawned_keys()) {
        Some(k) => Err(DecodeErrView::SchemaMismatch(k@)),
        None => if sp_u32(fs, "EventID"@) is Err {
            Err(sp_u32(fs, "EventID"@)->Err_0)
        } else if sp_bits(fs, "EventTime"@) is Err {
            Err(sp_bits(fs, "EventTime"@)->Err_0)
        } else if sp_inhibitor(fs, "InhibRespawned"@) is Err {
            Err(sp_inhibitor(fs, "InhibRespawned"@)->Err_0)
        } else {
            Ok(
                InhibRespawned {
                    event_id: sp_u32(fs, "EventID"@)->Ok_0,
                    event_time: sp_bits(fs, "EventTime"@)->Ok_0,
                    inhib_respawned: sp_inhibitor(fs, "InhibRespawned"@)->Ok_0,
                },
            )
        },
    }
}

/// Decode an `InhibRespawned` event.
pub fn decode_inhib_respawned(fields: &Vec<(String, JsonValue)>) -> (r: Result<
    InhibRespawned,
    DecodeError,
>)
    ensures
        decoded(r) == inhib_respawned_from_fields(fields@),
{
    let allowed: [&str; 4] = ["EventID", "EventName", "EventTime", "InhibRespawned"];
    proof {
        assert(key_views(allowed@) =~= inhib_respawned_keys());
    }
    if let Some(k) = check_keys(fields, &allowed) {
        return Err(DecodeError::SchemaMismatch(k));
    }
    let event_id = get_u32(fields, "EventID")?;
    let event_time = get_bits(fields, "EventTime")?;
    let inhib_respawned = get_inhibitor(fields, "InhibRespawned")?;
    Ok(InhibRespawned { event_id, event_time, inhib_respawned })
}

/// Member names an `InhibRespawningSoon` event object may carry.
pub open spec fn inhib_respawning_soon_keys() -> Seq<Seq<char>> {
    seq!["EventID"@, "EventName"@, "EventTime"@, "InhibRespawningSoon"@]
}

/// How an `InhibRespawningSoon` event decodes from its object members.
pub open spec fn inhib_respawning_soon_from_fields(fs: Seq<(String, JsonValue)>) -> Result<
    InhibRespawningSoon,
    DecodeErrView,
> {
    match spec_unknown_key(fs, inhib_respawning_soon_keys()) {
        Some(k) => Err(DecodeErrView::SchemaMismatch(k@)),
        None => if sp_u32(fs, "EventID"@) is Err {
            Err(sp_u32(fs, "EventID"@)->Err_0)
        } else if sp_bits(fs, "EventTime"@) is Err {
            Err(sp_bits(fs, "EventTime"@)->Err_0)
        } else if sp_inhibitor(fs, "InhibRespawningSoon"@) is Err {
            Err(sp_inhibitor(fs, "InhibRespawningSoon"@)->Err_0)
        } else {
            Ok(
                InhibRespawningSoon {
                    event_id: sp_u32(fs, "EventID"@)->Ok_0,
                    event_time: sp_bits(fs, "EventTime"@)->Ok_0,
                    inhib_respawning_soon: sp_inhibitor(fs, "InhibRespawningSoon"@)->Ok_0,
                },
            )
        },
    }
}

/// Decode an `InhibRespawningSoon` event.
pub fn decode_inhib_respawning_soon(fields: &Vec<(String, JsonValue)>) -> (r: Result<
    InhibRespawningSoon,
    DecodeError,
>)
    ensures
        decoded(r) == inhib_respawning_soon_from_fields(fields@),
{
    let allowed: [&str; 4] = ["EventID", "EventName", "EventTime", "InhibRespawningSoon"];
    proof {
        assert(key_views(allowed@) =~= inhib_respawning_soon_keys());
    }
    if let Some(k) = check_keys(fields, &allowed) {
        return Err(DecodeError::SchemaMismatch(k));
    }
    let event_id = get_u32(fields, "EventID")?;
    let event_time = get_bits(fields, "EventTime")?;
    let inhib_respawning_soon = get_inhibitor(fields, "InhibRespawningSoon")?;
    Ok(InhibRespawningSoon { event_id, event_time, inhib_respawning_soon })
}

/// Member names a `MinionsSpawning` event object may carry.
pub open spec fn minions_spawning_keys() -> Seq<Seq<char>> {
    seq!["EventID"@, "EventName"@, "EventTime"@]
}

/// How a `MinionsSpawning` event decodes from its object members.
pub open spec fn minions_spawning_from_fields(fs: Seq<(String, JsonValue)>) -> Result<
    MinionsSpawning,
    DecodeErrView,
> {
    match spec_unknown_key(fs, minions_spawning_keys()) {
        Some(k) => Err(DecodeErrView::SchemaMismatch(k@)),
        None => if sp_u32(fs, "EventID"@) is Err {
            Err(sp_u32(fs, "EventID"@)->Err_0)
        } else if sp_bits(fs, "EventTime"@) is Err {
            Err(sp_bits(fs, "EventTime"@)->Err_0)
        } else {
            Ok(
                MinionsSpawning {
                    event_id: sp_u32(fs, "EventID"@)->Ok_0,
                    event_time: sp_bits(fs, "EventTime"@)->Ok_0,
                },
            )
        },
    }
}

/// Decode a `MinionsSpawning` event.
pub fn decode_minions_spawning(fields: &Vec<(String, JsonValue)>) -> (r: Result<
    MinionsSpawning,
    DecodeError,
>)
    ensures
        decoded(r) == minions_spawning_from_fields(fields@),
{
    let allowed: [&str; 3] = ["EventID", "EventName", "EventTime"];
    proof {
        assert(key_views(allowed@) =~= minions_spawning_keys());
    }
    if let Some(k) = check_keys(fields, &allowed) {
        return Err(DecodeError::SchemaMismatch(k));
    }
    let event_id = get_u32(fields, "EventID")?;
    let event_time = get_bits(fields, "EventTime")?;
    Ok(MinionsSpawning { event_id, event_time })
}

/// Member names a `Multikill` event object may carry.
pub open spec fn multikill_keys() -> Seq<Seq<char>> {
    seq!["EventID"@, "EventName"@, "EventTime"@, "KillStreak"@, "KillerName"@]
}

/// How a `Multikill` event decodes from its object members. The killer
/// here is a plain summoner name, not a classified kill source.
pub open spec fn multikill_from_fields(fs: Seq<(String, JsonValue)>) -> Result<
    Multikill,
    DecodeErrView,
> {
    match spec_unknown_key(fs, multikill_keys()) {
        Some(k) => Err(DecodeErrView::SchemaMismatch(k@)),
        None => if sp_u32(fs, "EventID"@) is Err {
            Err(sp_u32(fs, "EventID"@)->Err_0)
        } else if sp_bits(fs, "EventTime"@) is Err {
            Err(sp_bits(fs, "EventTime"@)->Err_0)
        } else if sp_i32(fs, "KillStreak"@) is Err {
            Err(sp_i32(fs, "KillStreak"@)->Err_0)
        } else if sp_string(fs, "KillerName"@) is Err {
            Err(sp_string(fs, "KillerName"@)->Err_0)
        } else {
            Ok(
                Multikill {
                    event_id: sp_u32(fs, "EventID"@)->Ok_0,
                    event_time: sp_bits(fs, "EventTime"@)->Ok_0,
                    kill_streak: sp_i32(fs, "KillStreak"@)->Ok_0,
                    killer_name: sp_string(fs, "KillerName"@)->Ok_0,
                },
            )
        },
    }
}

/// Decode a `Multikill` event.
pub fn decode_multikill(fields: &Vec<(String, JsonValue)>) -> (r: Result<Multikill, DecodeError>)
    ensures
        decoded(r) == multikill_from_fields(fields@),
{
    let allowed: [&str; 5] = ["EventID", "EventName", "EventTime", "KillStreak", "KillerName"];
    proof {
        assert(key_views(allowed@) =~= multikill_keys());
    }
    if let Some(k) = check_keys(fields, &allowed) {
        return Err(DecodeError::SchemaMismatch(k));
    }
    let event_id = get_u32(fields, "EventID")?;
    let event_time = get_bits(fields, "EventTime")?;
    let kill_streak = get_i32(fields, "KillStreak")?;
    let killer_name = get_string(fields, "KillerName")?;
    Ok(Multikill { event_id, event_time, kill_streak, killer_name })
}

/// Member names a `TurretKilled` event object may carry.
pub open spec fn turret_killed_keys() -> Seq<Seq<char>> {
    seq!["Assisters"@, "EventID"@, "EventName"@, "EventTime"@, "KillerName"@, "TurretKilled"@]
}

/// How a `TurretKilled` event decodes from its object members.
pub open spec fn turret_killed_from_fields(fs: Seq<(String, JsonValue)>) -> Result<
    TurretKilledV,
    DecodeErrView,
> {
    match spec_unknown_key(fs, turret_killed_keys()) {
        Some(k) => Err(DecodeErrView::SchemaMismatch(k@)),
        None => if sp_string_vec(fs, "Assisters"@) is Err {
            Err(sp_string_vec(fs, "Assisters"@)->Err_0)
        } else if sp_u32(fs, "EventID"@) is Err {
            Err(sp_u32(fs, "EventID"@)->Err_0)
        } else if sp_bits(fs, "EventTime"@) is Err {
            Err(sp_bits(fs, "EventTime"@)->Err_0)
        } else if sp_killer(fs, "KillerName"@) is Err {
            Err(sp_killer(fs, "KillerName"@)->Err_0)
        } else if sp_turret(fs, "TurretKilled"@) is Err {
            Err(sp_turret(fs, "TurretKilled"@)->Err_0)
        } else {
            Ok(
                TurretKilledV {
                    assisters: sp_string_vec(fs, "Assisters"@)->Ok_0,
                    event_id: sp_u32(fs, "EventID"@)->Ok_0,
                    event_time: sp_bits(fs, "EventTime"@)->Ok_0,
                    killer_name: sp_killer(fs, "KillerName"@)->Ok_0,
                    turret_killed: sp_turret(fs, "TurretKilled"@)->Ok_0,
                },
            )
        },
    }
}

/// Decode a `TurretKilled` event.
pub fn decode_turret_killed(fields: &Vec<(String, JsonValue)>) -> (r: Result<
    TurretKilled,
    DecodeError,
>)
    ensures
        match r {
            Ok(x) => turret_killed_from_fields(fields@) == Ok::<TurretKilledV, DecodeErrView>(x@),
            Err(e) => turret_killed_from_fields(fields@) == Err::<TurretKilledV, DecodeErrView>(
                e@,
            ),
        },
{
    let allowed: [&str; 6] = [
        "Assisters",
        "EventID",
        "EventName",
        "EventTime",
        "KillerName",
        "TurretKilled",
    ];
    proof {
        assert(key_views(allowed@) =~= turret_killed_keys());
    }
    if let Some(k) = check_keys(fields, &allowed) {
        return Err(DecodeError::SchemaMismatch(k));
    }
    let assisters = get_string_vec(fields, "Assisters")?;
    let event_id = get_u32(fields, "EventID")?;
    let event_time = get_bits(fields, "EventTime")?;
    let killer_name = get_killer(fields, "KillerName")?;
    let turret_killed = get_turret(fields, "TurretKilled")?;
    Ok(TurretKilled { assisters, event_id, event_time, killer_name, turret_killed })
}

/// How one event object decodes, once its discriminant is known. The set
/// of event kinds is closed: an unrecognized discriminant is a mismatch on
/// the discriminant field.
pub open spec fn game_event_from_tag(fs: Seq<(String, JsonValue)>, tag: Seq<char>) -> Result<
    GameEventV,
    DecodeErrView,
> {
    if tag == "Ace"@ {
        match ace_from_fields(fs) {
            Ok(x) => Ok(GameEventV::Ace(x)),
            Err(e) => Err(e),
        }
    } else if tag == "BaronKill"@ {
        match baron_kill_from_fields(fs) {
            Ok(x) => Ok(GameEventV::BaronKill(x)),
            Err(e) => Err(e),
        }
    } else if tag == "ChampionKill"@ {
        match champion_kill_from_fields(fs) {
            Ok(x) => Ok(GameEventV::ChampionKill(x)),
            Err(e) => Err(e),
        }
    } else if tag == "DragonKill"@ {
        match dragon_kill_from_fields(fs) {
            Ok(x) => Ok(GameEventV::DragonKill(x)),
            Err(e) => Err(e),
        }
    } else if tag == "FirstBlood"@ {
        match first_blood_from_fields(fs) {
            Ok(x) => Ok(GameEventV::FirstBlood(x)),
            Err(e) => Err(e),
        }
    } else if tag == "FirstBrick"@ {
        match first_brick_from_fields(fs) {
            Ok(x) => Ok(GameEventV::FirstBrick(x)),
            Err(e) => Err(e),
        }
    } else if tag == "GameEnd"@ {
        match game_end_from_fields(fs) {
            Ok(x) => Ok(GameEventV::GameEnd(x)),
            Err(e) => Err(e),
        }
    } else if tag == "GameStart"@ {
        match game_start_from_fields(fs) {
            Ok(x) => Ok(GameEventV::GameStart(x)),
            Err(e) => Err(e),
        }
    } else if tag == "HeraldKill"@ {
        match herald_kill_from_fields(fs) {
            Ok(x) => Ok(GameEventV::HeraldKill(x)),
            Err(e) => Err(e),
        }
    } else if tag == "InhibKilled"@ {
        match inhib_killed_from_fields(fs) {
            Ok(x) => Ok(GameEventV::InhibKilled(x)),
            Err(e) => Err(e),
        }
    } else if tag == "InhibRespawned"@ {
        match inhib_respawned_from_fields(fs) {
            Ok(x) => Ok(GameEventV::InhibRespawned(x)),
            Err(e) => Err(e),
        }
    } else if tag == "InhibRespawningSoon"@ {
        match inhib_respawning_soon_from_fields(fs) {
            Ok(x) => Ok(GameEventV::InhibRespawningSoon(x)),
            Err(e) => Err(e),
        }
    } else if tag == "MinionsSpawning"@ {
        match minions_spawning_from_fields(fs) {
            Ok(x) => Ok(GameEventV::MinionsSpawning(x)),
            Err(e) => Err(e),
        }
    } else if tag == "Multikill"@ {
        match multikill_from_fields(fs) {
            Ok(x) => Ok(GameEventV::Multikill(x)),
            Err(e) => Err(e),
        }
    } else if tag == "TurretKilled"@ {
        match turret_killed_from_fields(fs) {
            Ok(x) => Ok(GameEventV::TurretKilled(x)),
            Err(e) => Err(e),
        }
    } else {
        Err(DecodeErrView::SchemaMismatch("EventName"@))
    }
}

/// How one element of the events list decodes.
pub open spec fn game_event_from_json(v: JsonValue) -> Result<GameEventV, DecodeErrView> {
    match v {
        JsonValue::Obj(o) => match sp_string(o@, "EventName"@) {
            Ok(name) => game_event_from_tag(o@, name@),
            Err(e) => Err(e),
        },
        _ => Err(DecodeErrView::SchemaMismatch("EventName"@)),
    }
}

/// Decode one event object, keyed by its explicit discriminant field.
pub fn decode_game_event(v: &JsonValue) -> (r: Result<GameEvent, DecodeError>)
    ensures
        match r {
            Ok(ev) => game_event_from_json(*v) == Ok::<GameEventV, DecodeErrView>(ev@),
            Err(e) => game_event_from_json(*v) == Err::<GameEventV, DecodeErrView>(e@),
        },
{
    let fields = match v {
        JsonValue::Obj(o) => o,
        _ => {
            return Err(mismatch_for("EventName"));
        },
    };
    let name = get_string(fields, "EventName")?;
    let tag = name.as_str();
    if str_eq(tag, "Ace") {
        match decode_ace(fields) {
            Ok(x) => Ok(GameEvent::Ace(x)),
            Err(e) => Err(e),
        }
    } else if str_eq(tag, "BaronKill") {
        match decode_baron_kill(fields) {
            Ok(x) => Ok(GameEvent::BaronKill(x)),
            Err(e) => Err(e),
        }
    } else if str_eq(tag, "ChampionKill") {
        match decode_champion_kill(fields) {
            Ok(x) => Ok(GameEvent::ChampionKill(x)),
            Err(e) => Err(e),
        }
    } else if str_eq(tag, "DragonKill") {
        match decode_dragon_kill(fields) {
            Ok(x) => Ok(GameEvent::DragonKill(x)),
            Err(e) => Err(e),
        }
    } else if str_eq(tag, "FirstBlood") {
        match decode_first_blood(fields) {
            Ok(x) => Ok(GameEvent::FirstBlood(x)),
            Err(e) => Err(e),
        }
    } else if str_eq(tag, "FirstBrick") {
        match decode_first_brick(fields) {
            Ok(x) => Ok(GameEvent::FirstBrick(x)),
            Err(e) => Err(e),
        }
    } else if str_eq(tag, "GameEnd") {
        match decode_game_end(fields) {
            Ok(x) => Ok(GameEvent::GameEnd(x)),
            Err(e) => Err(e),
        }
    } else if str_eq(tag, "GameStart") {
        match decode_game_start(fields) {
            Ok(x) => Ok(GameEvent::GameStart(x)),
            Err(e) => Err(e),
        }
    } else if str_eq(tag, "HeraldKill") {
        match decode_herald_kill(fields) {
            Ok(x) => Ok(GameEvent::HeraldKill(x)),
            Err(e) => Err(e),
        }
    } else if str_eq(tag, "InhibKilled") {
        match decode_inhib_killed(fields) {
            Ok(x) => Ok(GameEvent::InhibKilled(x)),
            Err(e) => Err(e),
        }
    } else if str_eq(tag, "InhibRespawned") {
        match decode_inhib_respawned(fields) {
            Ok(x) => Ok(GameEvent::InhibRespawned(x)),
            Err(e) => Err(e),
        }
    } else if str_eq(tag, "InhibRespawningSoon") {
        match decode_inhib_respawning_soon(fields) {
            Ok(x) => Ok(GameEvent::InhibRespawningSoon(x)),
            Err(e) => Err(e),
        }
    } else if str_eq(tag, "MinionsSpawning") {
        match decode_minions_spawning(fields) {
            Ok(x) => Ok(GameEvent::MinionsSpawning(x)),
            Err(e) => Err(e),
        }
    } else if str_eq(tag, "Multikill") {
        match decode_multikill(fields) {
            Ok(x) => Ok(GameEvent::Multikill(x)),
            Err(e) => Err(e),
        }
    } else if str_eq(tag, "TurretKilled") {
        match decode_turret_killed(fields) {
            Ok(x) => Ok(GameEvent::TurretKilled(x)),
            Err(e) => Err(e),
        }
    } else {
        Err(mismatch_for("EventName"))
    }
}

/// What the single-key events wrapper unwraps to: the one value, whatever
/// the key's text; a zero-key or multi-key mapping is malformed, and a
/// value that is not a list is a mismatch on the events section.
pub open spec fn envelope_value(v: JsonValue) -> Result<Vec<JsonValue>, DecodeErrView> {
    match v {
        JsonValue::Obj(o) => if o@.len() != 1 {
            Err(DecodeErrView::MalformedEventEnvelope)
        } else {
            match o@[0].1 {
                JsonValue::Arr(a) => Ok(a),
                _ => Err(DecodeErrView::SchemaMismatch("events"@)),
            }
        },
        _ => Err(DecodeErrView::SchemaMismatch("events"@)),
    }
}

/// Unwrap the single-key events envelope, regardless of the key's text.
/// The wrapped list is returned as it stands, in order.
pub fn unwrap_event_envelope<'a>(v: &'a JsonValue) -> (r: Result<&'a Vec<JsonValue>, DecodeError>)
    ensures
        match r {
            Ok(a) => envelope_value(*v) == Ok::<Vec<JsonValue>, DecodeErrView>(*a),
            Err(e) => envelope_value(*v) == Err::<Vec<JsonValue>, DecodeErrView>(e@),
        },
{
    match v {
        JsonValue::Obj(o) => {
            if o.len() != 1 {
                Err(DecodeError::MalformedEventEnvelope)
            } else {
                match &o[0].1 {
                    JsonValue::Arr(a) => Ok(a),
                    _ => Err(mismatch_for("events")),
                }
            }
        },
        _ => Err(mismatch_for("events")),
    }
}

/// How one element of the events list decodes, as a function value.
pub open spec fn game_event_elem() -> spec_fn(JsonValue) -> Result<GameEventV, DecodeErrView> {
    |v: JsonValue| game_event_from_json(v)
}

/// The views of a decoded event list.
pub open spec fn events_view(evs: Seq<GameEvent>) -> Seq<GameEventV> {
    evs.map_values(|e: GameEvent| e@)
}

/// How the whole events section decodes: unwrap the envelope, then decode
/// each element in order.
pub open spec fn events_from_json(v: JsonValue) -> Result<Seq<GameEventV>, DecodeErrView> {
    match envelope_value(v) {
        Ok(a) => sp_seq_of(a@, game_event_elem()),
        Err(e) => Err(e),
    }
}

/// Decode the events section.
pub fn decode_events(v: &JsonValue) -> (r: Result<Vec<GameEvent>, DecodeError>)
    ensures
        match r {
            Ok(evs) => events_from_json(*v) == Ok::<Seq<GameEventV>, DecodeErrView>(
                events_view(evs@),
            ),
            Err(e) => events_from_json(*v) == Err::<Seq<GameEventV>, DecodeErrView>(e@),
        },
{
    let arr = match unwrap_event_envelope(v) {
        Ok(a) => a,
        Err(e) => {
            return Err(e);
        },
    };
    let ghost f = game_event_elem();
    let mut out: Vec<GameEvent> = Vec::new();
    let mut i: usize = 0;
    while i < arr.len()
        invariant
            0 <= i <= arr@.len(),
            out@.len() == i,
            f == game_event_elem(),
            envelope_value(*v) == Ok::<Vec<JsonValue>, DecodeErrView>(*arr),
            forall|j: int| 0 <= j < i ==> f(arr@[j]) == Ok::<GameEventV, DecodeErrView>(out@[j]@),
        decreases arr@.len() - i,
    {
        match decode_game_event(&arr[i]) {
            Ok(ev) => {
                out.push(ev);
            },
            Err(e) => {
                proof {
                    lemma_seq_of_err(arr@, f, i as int, e@);
                }
                return Err(e);
            },
        }
        i += 1;
    }
    proof {
        assert(forall|j: int|
            0 <= j < arr@.len() ==> #[trigger] events_view(out@)[j] == out@[j]@);
        lemma_seq_of_ok(arr@, f, events_view(out@));
    }
    Ok(out)
}

impl GameStart {
    /// Re-encode this event as a tagged JSON object. Decoding the result
    /// through the discriminant dispatch yields the event back unchanged.
    pub fn to_json(&self) -> (v: JsonValue)
        ensures
            game_event_from_json(v) == Ok::<GameEventV, DecodeErrView>(
                GameEventV::GameStart(*self),
            ),
    {
        let mut fields: Vec<(String, JsonValue)> = Vec::new();
        fields.push(
            (
                String::from_str("EventID"),
                JsonValue::Num(
                    crate::json::JsonNumber { int_val: Some(self.event_id as i64), bits: 0 },
                ),
            ),
        );
        fields.push((String::from_str("EventName"), JsonValue::Str(String::from_str("GameStart"))));
        fields.push(
            (
                String::from_str("EventTime"),
                JsonValue::Num(crate::json::JsonNumber { int_val: None, bits: self.event_time }),
            ),
        );
        proof {
            reveal_strlit("EventID");
            reveal_strlit("EventName");
            reveal_strlit("EventTime");
            reveal_strlit("GameStart");
            reveal_strlit("Ace");
            reveal_strlit("BaronKill");
            reveal_strlit("ChampionKill");
            reveal_strlit("DragonKill");
            reveal_strlit("FirstBlood");
            reveal_strlit("FirstBrick");
            reveal_strlit("GameEnd");
            assert("EventID"@.len() == 7);
            assert("EventName"@.len() == 9 && "EventName"@[5] == 'N');
            assert("EventTime"@.len() == 9 && "EventTime"@[5] == 'T');
            assert("GameStart"@.len() == 9 && "GameStart"@[0] == 'G');
            assert("Ace"@.len() == 3);
            assert("BaronKill"@.len() == 9 && "BaronKill"@[0] == 'B');
            assert("ChampionKill"@.len() == 12);
            assert("DragonKill"@.len() == 10);
            assert("FirstBlood"@.len() == 10);
            assert("FirstBrick"@.len() == 10);
            assert("GameEnd"@.len() == 7 && "GameEnd"@[0] == 'G');
            let fs = fields@;
            let ks = game_start_keys();
            assert(fs.len() == 3);
            assert(fs[0].0@ == "EventID"@);
            assert(fs[1].0@ == "EventName"@);
            assert(fs[2].0@ == "EventTime"@);
            assert(ks[0] == "EventID"@);
            assert(ks[1] == "EventName"@);
            assert(ks[2] == "EventTime"@);
            assert(ks.contains(fs[0].0@));
            assert(ks.contains(fs[1].0@));
            assert(ks.contains(fs[2].0@));
            assert(fs.skip(1).skip(1) =~= fs.skip(2));
            assert(fs.skip(2).skip(1) =~= fs.skip(3));
            assert(fs.skip(1)[0] == fs[1]);
            assert(fs.skip(2)[0] == fs[2]);
            assert(fs.skip(3).len() == 0);
            assert(spec_unknown_key(fs.skip(3), ks) is None);
            assert(spec_unknown_key(fs.skip(2), ks) is None);
            assert(spec_unknown_key(fs.skip(1), ks) is None);
            assert(spec_unknown_key(fs, ks) is None);
            assert(spec_lookup(fs, "EventID"@) == Some(fs[0].1));
            assert(spec_lookup(fs.skip(1), "EventName"@) == Some(fs[1].1));
            assert(spec_lookup(fs, "EventName"@) == Some(fs[1].1));
            assert(spec_lookup(fs.skip(2), "EventTime"@) == Some(fs[2].1));
            assert(spec_lookup(fs.skip(1), "EventTime"@) == Some(fs[2].1));
            assert(spec_lookup(fs, "EventTime"@) == Some(fs[2].1));
            assert(sp_string(fs, "EventName"@) is Ok);
            assert(sp_string(fs, "EventName"@)->Ok_0@ == "GameStart"@);
            assert(game_start_from_fields(fs) == Ok::<GameStart, DecodeErrView>(*self));
            assert(game_event_from_tag(fs, "GameStart"@) == Ok::<GameEventV, DecodeErrView>(
                GameEventV::GameStart(*self),
            ));
        }
        JsonValue::Obj(fields)
    }
}

/// The sequence number shared by every event variant.
pub open spec fn event_id_of(e: GameEventV) -> EventId {
    match e {
        GameEventV::Ace(x) => x.event_id,
        GameEventV::BaronKill(x) => x.event_id,
        GameEventV::ChampionKill(x) => x.event_id,
        GameEventV::DragonKill(x) => x.event_id,
        GameEventV::FirstBlood(x) => x.event_id,
        GameEventV::FirstBrick(x) => x.event_id,
        GameEventV::GameEnd(x) => x.event_id,
        GameEventV::GameStart(x) => x.event_id,
        GameEventV::HeraldKill(x) => x.event_id,
        GameEventV::InhibKilled(x) => x.event_id,
        GameEventV::InhibRespawned(x) => x.event_id,
        GameEventV::InhibRespawningSoon(x) => x.event_id,
        GameEventV::MinionsSpawning(x) => x.event_id,
        GameEventV::Multikill(x) => x.event_id,
        GameEventV::TurretKilled(x) => x.event_id,
    }
}

/// The timestamp shared by every event variant.
pub open spec fn event_time_of(e: GameEventV) -> Time {
    match e {
        GameEventV::Ace(x) => x.event_time,
        GameEventV::BaronKill(x) => x.event_time,
        GameEventV::ChampionKill(x) => x.event_time,
        GameEventV::DragonKill(x) => x.event_time,
        GameEventV::FirstBlood(x) => x.event_time,
        GameEventV::FirstBrick(x) => x.event_time,
        GameEventV::GameEnd(x) => x.event_time,
        GameEventV::GameStart(x) => x.event_time,
        GameEventV::HeraldKill(x) => x.event_time,
        GameEventV::InhibKilled(x) => x.event_time,
        GameEventV::InhibRespawned(x) => x.event_time,
        GameEventV::InhibRespawningSoon(x) => x.event_time,
        GameEventV::MinionsSpawning(x) => x.event_time,
        GameEventV::Multikill(x) => x.event_time,
        GameEventV::TurretKilled(x) => x.event_time,
    }
}

impl GameEvent {
    /// The sequence number, uniformly over the closed set of variants.
    pub fn get_event_id(&self) -> (r: EventId)
        ensures
            r == event_id_of(self@),
    {
        match self {
            GameEvent::Ace(e) => e.event_id,
            GameEvent::BaronKill(e) => e.event_id,
            GameEvent::ChampionKill(e) => e.event_id,
            GameEvent::DragonKill(e) => e.event_id,
            GameEvent::FirstBlood(e) => e.event_id,
            GameEvent::FirstBrick(e) => e.event_id,
            GameEvent::GameEnd(e) => e.event_id,
            GameEvent::GameStart(e) => e.event_id,
            GameEvent::HeraldKill(e) => e.event_id,
            GameEvent::InhibKilled(e) => e.event_id,
            GameEvent::InhibRespawned(e) => e.event_id,
            GameEvent::InhibRespawningSoon(e) => e.event_id,
            GameEvent::MinionsSpawning(e) => e.event_id,
            GameEvent::Multikill(e) => e.event_id,
            GameEvent::TurretKilled(e) => e.event_id,
        }
    }

    /// The timestamp, uniformly over the closed set of variants.
    pub fn get_event_time(&self) -> (r: Time)
        ensures
            r == event_time_of(self@),
    {
        match self {
            GameEvent::Ace(e) => e.event_time,
            GameEvent::BaronKill(e) => e.event_time,
            GameEvent::ChampionKill(e) => e.event_time,
            GameEvent::DragonKill(e) => e.event_time,
            GameEvent::FirstBlood(e) => e.event_time,
            GameEvent::FirstBrick(e) => e.event_time,
            GameEvent::GameEnd(e) => e.event_time,
            GameEvent::GameStart(e) => e.event_time,
            GameEvent::HeraldKill(e) => e.event_time,
            GameEvent::InhibKilled(e) => e.event_time,
            GameEvent::InhibRespawned(e) => e.event_time,
            GameEvent::InhibRespawningSoon(e) => e.event_time,
            GameEvent::MinionsSpawning(e) => e.event_time,
            GameEvent::Multikill(e) => e.event_time,
            GameEvent::TurretKilled(e) => e.event_time,
        }
    }
}

} // verus!
