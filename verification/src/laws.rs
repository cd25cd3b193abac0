//! The library's cross-cutting guarantees, stated and proved once over
//! all inputs: strictness of the schema mapper, the envelope normalizer's
//! behaviour, the spectator resolver's collapse, and the precedence of
//! the exact classifier matches over the substring markers.

use vstd::prelude::*;
use crate::json::{sp_seq_of, spec_unknown_key, DecodeErrView, JsonValue};
use crate::active::{
    active_player_from_fields, active_player_keys, active_player_option_from_json,
    is_error_shape, ActivePlayerV,
};
use crate::classify::{dragon_of, killer_of, turret_of, KillerV, Turret};
use crate::events::{envelope_value, events_from_json, game_event_elem};
use crate::snapshot::{all_game_data_from_json, all_game_data_keys};

verus! {

/// A root document carrying any unexpected member fails with a
/// `SchemaMismatch` naming the first such member: upstream drift is never
/// silently absorbed.
pub proof fn lemma_root_unknown_field_rejected(o: Vec<(String, JsonValue)>)
    requires
        spec_unknown_key(o@, all_game_data_keys()) is Some,
    ensures
        all_game_data_from_json(JsonValue::Obj(o)) matches Err(e) && e
            == DecodeErrView::SchemaMismatch(
            spec_unknown_key(o@, all_game_data_keys())->Some_0@,
        ),
{
}

/// A populated active-player object carrying any unexpected member fails
/// with a `SchemaMismatch` naming the first such member.
pub proof fn lemma_active_player_unknown_field_rejected(o: Vec<(String, JsonValue)>)
    requires
        spec_unknown_key(o@, active_player_keys()) is Some,
        !is_error_shape(o@),
    ensures
        active_player_option_from_json(JsonValue::Obj(o)) matches Err(e) && e
            == DecodeErrView::SchemaMismatch(
            spec_unknown_key(o@, active_player_keys())->Some_0@,
        ),
{
}

/// The envelope normalizer accepts any single-key mapping, whatever the
/// key's text, and yields the wrapped list unchanged, in order.
pub proof fn lemma_envelope_single_key(o: Vec<(String, JsonValue)>, items: Vec<JsonValue>)
    requires
        o@.len() == 1,
        o@[0].1 == JsonValue::Arr(items),
    ensures
        envelope_value(JsonValue::Obj(o)) == Ok::<Vec<JsonValue>, DecodeErrView>(items),
        events_from_json(JsonValue::Obj(o)) == sp_seq_of(items@, game_event_elem()),
{
}

/// The envelope normalizer rejects a zero-key or multi-key mapping as
/// malformed.
pub proof fn lemma_envelope_wrong_arity(o: Vec<(String, JsonValue)>)
    requires
        o@.len() != 1,
    ensures
        envelope_value(JsonValue::Obj(o)) == Err::<Vec<JsonValue>, DecodeErrView>(
            DecodeErrView::MalformedEventEnvelope,
        ),
{
}

/// The spectator resolver maps every error-marker shape to `None`.
pub proof fn lemma_error_shape_resolves_none(o: Vec<(String, JsonValue)>)
    requires
        is_error_shape(o@),
    ensures
        active_player_option_from_json(JsonValue::Obj(o)) == Ok::<
            Option<ActivePlayerV>,
            DecodeErrView,
        >(None),
{
}

/// The spectator resolver maps every decodable populated shape to `Some`
/// of the decoded record.
pub proof fn lemma_populated_shape_resolves_some(o: Vec<(String, JsonValue)>)
    requires
        active_player_from_fields(o@) is Ok,
    ensures
        active_player_option_from_json(JsonValue::Obj(o)) == Ok::<
            Option<ActivePlayerV>,
            DecodeErrView,
        >(Some(active_player_from_fields(o@)->Ok_0)),
{
    if is_error_shape(o@) {
        reveal_strlit("error");
        reveal_strlit("abilities");
        reveal_strlit("championStats");
        reveal_strlit("currentGold");
        reveal_strlit("fullRunes");
        reveal_strlit("level");
        reveal_strlit("runes");
        reveal_strlit("summonerName");
        reveal_strlit("teamRelativeColors");
        assert(o@.len() == 1 && o@[0].0@ == "error"@);
        assert("error"@.len() == 5 && "error"@[0] == 'e');
        assert("abilities"@.len() == 9);
        assert("championStats"@.len() == 13);
        assert("currentGold"@.len() == 11);
        assert("fullRunes"@.len() == 9);
        assert("level"@.len() == 5 && "level"@[0] == 'l');
        assert("runes"@.len() == 5 && "runes"@[0] == 'r');
        assert("summonerName"@.len() == 12);
        assert("teamRelativeColors"@.len() == 18);
        assert forall|m: int|
            0 <= m < active_player_keys().len() implies #[trigger] active_player_keys()[m]
            != "error"@ by {
            let ks = active_player_keys();
            assert(ks.len() == 8);
            if m == 0 {
                assert(ks[0] == "abilities"@);
            } else if m == 1 {
                assert(ks[1] == "championStats"@);
            } else if m == 2 {
                assert(ks[2] == "currentGold"@);
            } else if m == 3 {
                assert(ks[3] == "fullRunes"@);
            } else if m == 4 {
                assert(ks[4] == "level"@);
            } else if m == 5 {
                assert(ks[5] == "runes"@);
            } else if m == 6 {
                assert(ks[6] == "summonerName"@);
            } else {
                assert(ks[7] == "teamRelativeColors"@);
            }
        }
        assert(!active_player_keys().contains(o@[0].0@));
        assert(spec_unknown_key(o@, active_player_keys()) is Some);
        assert(false);
    }
}

/// A token naming a turret slot classifies as that turret slot, whatever
/// substrings it contains: the exact turret match precedes every
/// substring marker in the heuristic chain. In particular a turret token
/// containing `"Baron"` is a turret, not a Rift Herald.
#[verifier::rlimit(100)]
pub proof fn lemma_turret_match_precedes_markers(s: Seq<char>)
    requires
        turret_of(s) != Turret::Unknown,
    ensures
        killer_of(s) == KillerV::Turret(turret_of(s)),
{
    reveal_strlit("Fire");
    reveal_strlit("SRU_Dragon_Fire");
    reveal_strlit("Water");
    reveal_strlit("SRU_Dragon_Water");
    reveal_strlit("Earth");
    reveal_strlit("SRU_Dragon_Earth");
    reveal_strlit("Air");
    reveal_strlit("SRU_Dragon_Air");
    reveal_strlit("Hextech");
    reveal_strlit("SRU_Dragon_Hextech");
    reveal_strlit("Chemtech");
    reveal_strlit("SRU_Dragon_Chemtech");
    reveal_strlit("Elder");
    reveal_strlit("SRU_Dragon_Elder");
    reveal_strlit("Turret_T1_C_01_A");
    reveal_strlit("Turret_T1_C_02_A");
    reveal_strlit("Turret_T1_C_03_A");
    reveal_strlit("Turret_T1_C_04_A");
    reveal_strlit("Turret_T1_C_05_A");
    reveal_strlit("Turret_T1_C_06_A");
    reveal_strlit("Turret_T1_C_07_A");
    reveal_strlit("Turret_T1_C_08_A");
    reveal_strlit("Turret_T1_C_09_A");
    reveal_strlit("Turret_T1_C_010_A");
    reveal_strlit("Turret_T1_L_02_A");
    reveal_strlit("Turret_T1_L_03_A");
    reveal_strlit("Turret_T1_R_02_A");
    reveal_strlit("Turret_T1_R_03_A");
    reveal_strlit("Turret_OrderTurretShrine_A");
    reveal_strlit("Turret_T2_C_01_A");
    reveal_strlit("Turret_T2_C_02_A");
    reveal_strlit("Turret_T2_C_03_A");
    reveal_strlit("Turret_T2_C_04_A");
    reveal_strlit("Turret_T2_C_05_A");
    reveal_strlit("Turret_T2_L_01_A");
    reveal_strlit("Turret_T2_L_02_A");
    reveal_strlit("Turret_T2_L_03_A");
    reveal_strlit("Turret_T2_L_04_A");
    reveal_strlit("Turret_T2_R_01_A");
    reveal_strlit("Turret_T2_R_02_A");
    reveal_strlit("Turret_T2_R_03_A");
    reveal_strlit("Turret_ChaosTurretShrine_A");
    reveal_strlit("Obelisk");
    assert("Fire"@.len() == 4);
    assert("SRU_Dragon_Fire"@.len() == 15);
    assert("Water"@.len() == 5);
    assert("SRU_Dragon_Water"@.len() == 16 && "SRU_Dragon_Water"@[0] == 'S');
    assert("Earth"@.len() == 5);
    assert("SRU_Dragon_Earth"@.len() == 16 && "SRU_Dragon_Earth"@[0] == 'S');
    assert("Air"@.len() == 3);
    assert("SRU_Dragon_Air"@.len() == 14);
    assert("Hextech"@.len() == 7 && "Hextech"@[0] == 'H');
    assert("SRU_Dragon_Hextech"@.len() == 18);
    assert("Chemtech"@.len() == 8);
    assert("SRU_Dragon_Chemtech"@.len() == 19);
    assert("Elder"@.len() == 5);
    assert("SRU_Dragon_Elder"@.len() == 16 && "SRU_Dragon_Elder"@[0] == 'S');
    assert("Turret_T1_C_01_A"@.len() == 16 && "Turret_T1_C_01_A"@[0] == 'T');
    assert("Turret_T1_C_02_A"@.len() == 16 && "Turret_T1_C_02_A"@[0] == 'T');
    assert("Turret_T1_C_03_A"@.len() == 16 && "Turret_T1_C_03_A"@[0] == 'T');
    assert("Turret_T1_C_04_A"@.len() == 16 && "Turret_T1_C_04_A"@[0] == 'T');
    assert("Turret_T1_C_05_A"@.len() == 16 && "Turret_T1_C_05_A"@[0] == 'T');
    assert("Turret_T1_C_06_A"@.len() == 16 && "Turret_T1_C_06_A"@[0] == 'T');
    assert("Turret_T1_C_07_A"@.len() == 16 && "Turret_T1_C_07_A"@[0] == 'T');
    assert("Turret_T1_C_08_A"@.len() == 16 && "Turret_T1_C_08_A"@[0] == 'T');
    assert("Turret_T1_C_09_A"@.len() == 16 && "Turret_T1_C_09_A"@[0] == 'T');
    assert("Turret_T1_C_010_A"@.len() == 17);
    assert("Turret_T1_L_02_A"@.len() == 16 && "Turret_T1_L_02_A"@[0] == 'T');
    assert("Turret_T1_L_03_A"@.len() == 16 && "Turret_T1_L_03_A"@[0] == 'T');
    assert("Turret_T1_R_02_A"@.len() == 16 && "Turret_T1_R_02_A"@[0] == 'T');
    assert("Turret_T1_R_03_A"@.len() == 16 && "Turret_T1_R_03_A"@[0] == 'T');
    assert("Turret_OrderTurretShrine_A"@.len() == 26);
    assert("Turret_T2_C_01_A"@.len() == 16 && "Turret_T2_C_01_A"@[0] == 'T');
    assert("Turret_T2_C_02_A"@.len() == 16 && "Turret_T2_C_02_A"@[0] == 'T');
    assert("Turret_T2_C_03_A"@.len() == 16 && "Turret_T2_C_03_A"@[0] == 'T');
    assert("Turret_T2_C_04_A"@.len() == 16 && "Turret_T2_C_04_A"@[0] == 'T');
    assert("Turret_T2_C_05_A"@.len() == 16 && "Turret_T2_C_05_A"@[0] == 'T');
    assert("Turret_T2_L_01_A"@.len() == 16 && "Turret_T2_L_01_A"@[0] == 'T');
    assert("Turret_T2_L_02_A"@.len() == 16 && "Turret_T2_L_02_A"@[0] == 'T');
    assert("Turret_T2_L_03_A"@.len() == 16 && "Turret_T2_L_03_A"@[0] == 'T');
    assert("Turret_T2_L_04_A"@.len() == 16 && "Turret_T2_L_04_A"@[0] == 'T');
    assert("Turret_T2_R_01_A"@.len() == 16 && "Turret_T2_R_01_A"@[0] == 'T');
    assert("Turret_T2_R_02_A"@.len() == 16 && "Turret_T2_R_02_A"@[0] == 'T');
    assert("Turret_T2_R_03_A"@.len() == 16 && "Turret_T2_R_03_A"@[0] == 'T');
    assert("Turret_ChaosTurretShrine_A"@.len() == 26);
    assert("Obelisk"@.len() == 7 && "Obelisk"@[0] == 'O');
    if dragon_of(s) is Some {
        if s == "Fire"@ || s == "SRU_Dragon_Fire"@ {
            assert(turret_of(s) == Turret::Unknown);
        } else if s == "Water"@ || s == "SRU_Dragon_Water"@ {
            assert(turret_of(s) == Turret::Unknown);
        } else if s == "Earth"@ || s == "SRU_Dragon_Earth"@ {
            assert(turret_of(s) == Turret::Unknown);
        } else if s == "Air"@ || s == "SRU_Dragon_Air"@ {
            assert(turret_of(s) == Turret::Unknown);
        } else if s == "Hextech"@ || s == "SRU_Dragon_Hextech"@ {
            assert(turret_of(s) == Turret::Unknown);
        } else if s == "Chemtech"@ || s == "SRU_Dragon_Chemtech"@ {
            assert(turret_of(s) == Turret::Unknown);
        } else {
            assert(s == "Elder"@ || s == "SRU_Dragon_Elder"@);
            assert(turret_of(s) == Turret::Unknown);
        }
        assert(false);
    }
}

} // verus!
