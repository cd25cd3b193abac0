//! The root telemetry document: one immutable snapshot per poll.

use vstd::prelude::*;
use crate::json::{
    check_keys, key_views, mismatch_for, obj_get, sp_obj, spec_lookup, spec_unknown_key,
    DecodeErrView, DecodeError, JsonValue,
};
use crate::active::{
    active_player_option_from_json, decode_active_player_option, opt_active_view, ActivePlayer,
    ActivePlayerV,
};
use crate::events::{decode_events, events_from_json, events_view, GameEvent, GameEventV};
use crate::player::{get_player_vec, players_view, sp_player_vec, Player, PlayerV};
use crate::stats::{decode_game_stats, game_stats_from_fields, GameStats};

verus! {

/// One decoded telemetry snapshot. `active_player` is present only in a
/// participant's own client, absent when spectating.
#[derive(Debug, Clone, PartialEq)]
pub struct AllGameData {
    pub active_player: Option<ActivePlayer>,
    pub all_players: Vec<Player>,
    pub events: Vec<GameEvent>,
    pub game_data: GameStats,
}

/// View of `AllGameData`.
pub struct AllGameDataV {
    pub active_player: Option<ActivePlayerV>,
    pub all_players: Seq<PlayerV>,
    pub events: Seq<GameEventV>,
    pub game_data: GameStats,
}

impl View for AllGameData {
    type V = AllGameDataV;

    open spec fn view(&self) -> AllGameDataV {
        AllGameDataV {
            active_player: opt_active_view(self.active_player),
            all_players: players_view(self.all_players@),
            events: events_view(self.events@),
            game_data: self.game_data,
        }
    }
}

/// Member names the root document may carry.
pub open spec fn all_game_data_keys() -> Seq<Seq<char>> {
    seq!["activePlayer"@, "allPlayers"@, "events"@, "gameData"@]
}

/// Specification of the active-player section of the root.
pub open spec fn sp_active_section(fs: Seq<(String, JsonValue)>) -> Result<
    Option<ActivePlayerV>,
    DecodeErrView,
> {
    match spec_lookup(fs, "activePlayer"@) {
        Some(v) => active_player_option_from_json(v),
        None => Err(DecodeErrView::SchemaMismatch("activePlayer"@)),
    }
}

/// Specification of the events section of the root.
pub open spec fn sp_events_section(fs: Seq<(String, JsonValue)>) -> Result<
    Seq<GameEventV>,
    DecodeErrView,
> {
    match spec_lookup(fs, "events"@) {
        Some(v) => events_from_json(v),
        None => Err(DecodeErrView::SchemaMismatch("events"@)),
    }
}

/// Specification of the game-stats section of the root.
pub open spec fn sp_game_data_section(fs: Seq<(String, JsonValue)>) -> Result<
    GameStats,
    DecodeErrView,
> {
    match sp_obj(fs, "gameData"@) {
        Ok(o) => game_stats_from_fields(o@),
        Err(e) => Err(e),
    }
}

/// How the root document decodes: all four sections, each strict, the
/// active-player union collapsed to an option.
pub open spec fn all_game_data_from_json(v: JsonValue) -> Result<AllGameDataV, DecodeErrView> {
    match v {
        JsonValue::Obj(o) => {
            let fs = o@;
            match spec_unknown_key(fs, all_game_data_keys()) {
                Some(k) => Err(DecodeErrView::SchemaMismatch(k@)),
                None => if sp_active_section(fs) is Err {
                    Err(sp_active_section(fs)->Err_0)
                } else if sp_player_vec(fs, "allPlayers"@) is Err {
                    Err(sp_player_vec(fs, "allPlayers"@)->Err_0)
                } else if sp_events_section(fs) is Err {
                    Err(sp_events_section(fs)->Err_0)
                } else if sp_game_data_section(fs) is Err {
                    Err(sp_game_data_section(fs)->Err_0)
                } else {
                    Ok(
                        AllGameDataV {
                            active_player: sp_active_section(fs)->Ok_0,
                            all_players: sp_player_vec(fs, "allPlayers"@)->Ok_0,
                            events: sp_events_section(fs)->Ok_0,
                            game_data: sp_game_data_section(fs)->Ok_0,
                        },
                    )
                },
            }
        },
        _ => Err(DecodeErrView::SchemaMismatch("allGameData"@)),
    }
}

impl AllGameData {
    /// Decode one telemetry snapshot from its root document.
    pub fn from_json(v: &JsonValue) -> (r: Result<AllGameData, DecodeError>)
        ensures
            match r {
                Ok(d) => all_game_data_from_json(*v) == Ok::<AllGameDataV, DecodeErrView>(d@),
                Err(e) => all_game_data_from_json(*v) == Err::<AllGameDataV, DecodeErrView>(e@),
            },
    {
        let fields = match v {
            JsonValue::Obj(o) => o,
            _ => {
                return Err(mismatch_for("allGameData"));
            },
        };
        let allowed: [&str; 4] = ["activePlayer", "allPlayers", "events", "gameData"];
        proof {
            assert(key_views(allowed@) =~= all_game_data_keys());
        }
        if let Some(k) = check_keys(fields, &allowed) {
            return Err(DecodeError::SchemaMismatch(k));
        }
        let active_v = match obj_get(fields, "activePlayer") {
            Some(x) => x,
            None => {
                return Err(mismatch_for("activePlayer"));
            },
        };
        let active_player = match decode_active_player_option(active_v) {
            Ok(a) => a,
            Err(e) => {
                return Err(e);
            },
        };
        let all_players = match get_player_vec(fields, "allPlayers") {
            Ok(p) => p,
            Err(e) => {
                return Err(e);
            },
        };
        let events_v = match obj_get(fields, "events") {
            Some(x) => x,
            None => {
                return Err(mismatch_for("events"));
            },
        };
        let events = match decode_events(events_v) {
            Ok(evs) => evs,
            Err(e) => {
                return Err(e);
            },
        };
        let gd = match obj_get(fields, "gameData") {
            Some(JsonValue::Obj(o)) => o,
            _ => {
                return Err(mismatch_for("gameData"));
            },
        };
        let game_data = match decode_game_stats(gd) {
            Ok(g) => g,
            Err(e) => {
                return Err(e);
            },
        };
        Ok(AllGameData { active_player, all_players, events, game_data })
    }
}

} // verus!
