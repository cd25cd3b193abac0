//! Rune records: single runes, rune trees, stat runes, and the two rune
//! summaries (the full set of the active player, the reduced set of a
//! listed player).

use vstd::prelude::*;
use crate::json::{
    check_keys, decoded, get_i32, get_obj, get_obj_alias, get_string, get_arr, key_views,
    lemma_seq_of_err, lemma_seq_of_ok, mismatch_for, sp_arr, sp_i32, sp_obj, sp_obj_alias,
    sp_seq_of, sp_string, spec_lookup, spec_unknown_key, DecodeErrView, DecodeError, JsonNumber,
    JsonValue,
};

verus! {

broadcast use vstd::std_specs::control_flow::group_control_flow_axioms;

/// A rune identifier.
pub type RuneId = i32;

/// A rune's display name.
pub type RuneName = String;

/// A rune-tree identifier.
pub type RuneTreeId = i32;

/// A rune-tree display name.
pub type RuneTreeName = String;

/// A stat-rune identifier.
pub type StatRuneId = i32;

/// One rune.
#[derive(Debug, Clone, PartialEq)]
pub struct Rune {
    pub display_name: RuneName,
    pub id: RuneId,
    pub raw_description: String,
    pub raw_display_name: String,
}

/// One rune tree.
#[derive(Debug, Clone, PartialEq)]
pub struct RuneTree {
    pub display_name: RuneTreeName,
    pub id: RuneTreeId,
    pub raw_description: String,
    pub raw_display_name: String,
}

/// One stat rune.
#[derive(Debug, Clone, PartialEq)]
pub struct StatRune {
    pub id: StatRuneId,
    pub raw_description: String,
}

/// The rune summary available for every listed player.
#[derive(Debug, Clone, PartialEq)]
pub struct PlayerRunes {
    pub keystone: Rune,
    pub primary_rune_tree: RuneTree,
    pub secondary_rune_tree: RuneTree,
}

/// The full rune page of the active player.
#[derive(Debug, Clone, PartialEq)]
pub struct FullPlayerRunes {
    pub general_runes: Vec<Rune>,
    pub keystone: Rune,
    pub primary_rune_tree: RuneTree,
    pub secondary_rune_tree: RuneTree,
    pub stat_runes: Vec<StatRune>,
}

/// View of `FullPlayerRunes`.
pub struct FullPlayerRunesV {
    pub general_runes: Seq<Rune>,
    pub keystone: Rune,
    pub primary_rune_tree: RuneTree,
    pub secondary_rune_tree: RuneTree,
    pub stat_runes: Seq<StatRune>,
}

impl View for FullPlayerRunes {
    type V = FullPlayerRunesV;

    open spec fn view(&self) -> FullPlayerRunesV {
        FullPlayerRunesV {
            general_runes: self.general_runes@,
            keystone: self.keystone,
            primary_rune_tree: self.primary_rune_tree,
            secondary_rune_tree: self.secondary_rune_tree,
            stat_runes: self.stat_runes@,
        }
    }
}

/// Member names a rune object may carry.
pub open spec fn rune_keys() -> Seq<Seq<char>> {
    seq!["displayName"@, "id"@, "rawDescription"@, "rawDisplayName"@]
}

/// How a rune decodes from its object members.
pub open spec fn rune_from_fields(fs: Seq<(String, JsonValue)>) -> Result<Rune, DecodeErrView> {
    match spec_unknown_key(fs, rune_keys()) {
        Some(k) => Err(DecodeErrView::SchemaMismatch(k@)),
        None => if sp_string(fs, "displayName"@) is Err {
            Err(sp_string(fs, "displayName"@)->Err_0)
        } else if sp_i32(fs, "id"@) is Err {
            Err(sp_i32(fs, "id"@)->Err_0)
        } else if sp_string(fs, "rawDescription"@) is Err {
            Err(sp_string(fs, "rawDescription"@)->Err_0)
        } else if sp_string(fs, "rawDisplayName"@) is Err {
            Err(sp_string(fs, "rawDisplayName"@)->Err_0)
        } else {
            Ok(
                Rune {
                    display_name: sp_string(fs, "displayName"@)->Ok_0,
                    id: sp_i32(fs, "id"@)->Ok_0,
                    raw_description: sp_string(fs, "rawDescription"@)->Ok_0,
                    raw_display_name: sp_string(fs, "rawDisplayName"@)->Ok_0,
                },
            )
        },
    }
}

/// Decode a rune object.
pub fn decode_rune(fields: &Vec<(String, JsonValue)>) -> (r: Result<Rune, DecodeError>)
    ensures
        decoded(r) == rune_from_fields(fields@),
{
    let allowed: [&str; 4] = ["displayName", "id", "rawDescription", "rawDisplayName"];
    proof {
        assert(key_views(allowed@) =~= rune_keys());
    }
    if let Some(k) = check_keys(fields, &allowed) {
        return Err(DecodeError::SchemaMismatch(k));
    }
    let display_name = get_string(fields, "displayName")?;
    let id = get_i32(fields, "id")?;
    let raw_description = get_string(fields, "rawDescription")?;
    let raw_display_name = get_string(fields, "rawDisplayName")?;
    Ok(Rune { display_name, id, raw_description, raw_display_name })
}

impl Rune {
    /// Re-encode this rune as a JSON object. Decoding the result yields
    /// the rune back unchanged: re-encoding preserves every field value.
    pub fn to_json(&self) -> (v: JsonValue)
        ensures
            v matches JsonValue::Obj(o) && rune_from_fields(o@) == Ok::<Rune, DecodeErrView>(
                *self,
            ),
    {
        let mut fields: Vec<(String, JsonValue)> = Vec::new();
        fields.push(
            (String::from_str("displayName"), JsonValue::Str(self.display_name.clone())),
        );
        fields.push(
            (
                String::from_str("id"),
                JsonValue::Num(JsonNumber { int_val: Some(self.id as i64), bits: 0 }),
            ),
        );
        fields.push(
            (String::from_str("rawDescription"), JsonValue::Str(self.raw_description.clone())),
        );
        fields.push(
            (
                String::from_str("rawDisplayName"),
                JsonValue::Str(self.raw_display_name.clone()),
            ),
        );
        proof {
            reveal_strlit("displayName");
            reveal_strlit("id");
            reveal_strlit("rawDescription");
            reveal_strlit("rawDisplayName");
            assert("displayName"@.len() == 11);
            assert("id"@.len() == 2);
            assert("rawDescription"@.len() == 14 && "rawDescription"@[4] == 'e');
            assert("rawDisplayName"@.len() == 14 && "rawDisplayName"@[4] == 'i');
            let fs = fields@;
            let ks = rune_keys();
            assert(fs.len() == 4);
            assert(fs[0].0@ == "displayName"@);
            assert(fs[1].0@ == "id"@);
            assert(fs[2].0@ == "rawDescription"@);
            assert(fs[3].0@ == "rawDisplayName"@);
            assert(ks[0] == "displayName"@);
            assert(ks[1] == "id"@);
            assert(ks[2] == "rawDescription"@);
            assert(ks[3] == "rawDisplayName"@);
            assert(ks.contains(fs[0].0@));
            assert(ks.contains(fs[1].0@));
            assert(ks.contains(fs[2].0@));
            assert(ks.contains(fs[3].0@));
            assert(fs.skip(1).skip(1) =~= fs.skip(2));
            assert(fs.skip(2).skip(1) =~= fs.skip(3));
            assert(fs.skip(3).skip(1) =~= fs.skip(4));
            assert(fs.skip(1)[0] == fs[1]);
            assert(fs.skip(2)[0] == fs[2]);
            assert(fs.skip(3)[0] == fs[3]);
            assert(fs.skip(4).len() == 0);
            assert(spec_unknown_key(fs.skip(4), ks) is None);
            assert(spec_unknown_key(fs.skip(3), ks) is None);
            assert(spec_unknown_key(fs.skip(2), ks) is None);
            assert(spec_unknown_key(fs.skip(1), ks) is None);
            assert(spec_unknown_key(fs, ks) is None);
            assert(spec_lookup(fs, "displayName"@) == Some(fs[0].1));
            assert(spec_lookup(fs.skip(1), "id"@) == Some(fs[1].1));
            assert(spec_lookup(fs, "id"@) == Some(fs[1].1));
            assert(spec_lookup(fs.skip(2), "rawDescription"@) == Some(fs[2].1));
            assert(spec_lookup(fs.skip(1), "rawDescription"@) == Some(fs[2].1));
            assert(spec_lookup(fs, "rawDescription"@) == Some(fs[2].1));
            assert(spec_lookup(fs.skip(3), "rawDisplayName"@) == Some(fs[3].1));
            assert(spec_lookup(fs.skip(2), "rawDisplayName"@) == Some(fs[3].1));
            assert(spec_lookup(fs.skip(1), "rawDisplayName"@) == Some(fs[3].1));
            assert(spec_lookup(fs, "rawDisplayName"@) == Some(fs[3].1));
            assert(rune_from_fields(fs) == Ok::<Rune, DecodeErrView>(*self));
        }
        JsonValue::Obj(fields)
    }
}

/// How a rune tree decodes from its object members; the member names are
/// those of a rune.
pub open spec fn rune_tree_from_fields(fs: Seq<(String, JsonValue)>) -> Result<
    RuneTree,
    DecodeErrView,
> {
    match spec_unknown_key(fs, rune_keys()) {
        Some(k) => Err(DecodeErrView::SchemaMismatch(k@)),
        None => if sp_string(fs, "displayName"@) is Err {
            Err(sp_string(fs, "displayName"@)->Err_0)
        } else if sp_i32(fs, "id"@) is Err {
            Err(sp_i32(fs, "id"@)->Err_0)
        } else if sp_string(fs, "rawDescription"@) is Err {
            Err(sp_string(fs, "rawDescription"@)->Err_0)
        } else if sp_string(fs, "rawDisplayName"@) is Err {
            Err(sp_string(fs, "rawDisplayName"@)->Err_0)
        } else {
            Ok(
                RuneTree {
                    display_name: sp_string(fs, "displayName"@)->Ok_0,
                    id: sp_i32(fs, "id"@)->Ok_0,
                    raw_description: sp_string(fs, "rawDescription"@)->Ok_0,
                    raw_display_name: sp_string(fs, "rawDisplayName"@)->Ok_0,
                },
            )
        },
    }
}

/// Decode a rune-tree object.
pub fn decode_rune_tree(fields: &Vec<(String, JsonValue)>) -> (r: Result<RuneTree, DecodeError>)
    ensures
        decoded(r) == rune_tree_from_fields(fields@),
{
    let allowed: [&str; 4] = ["displayName", "id", "rawDescription", "rawDisplayName"];
    proof {
        assert(key_views(allowed@) =~= rune_keys());
    }
    if let Some(k) = check_keys(fields, &allowed) {
        return Err(DecodeError::SchemaMismatch(k));
    }
    let display_name = get_string(fields, "displayName")?;
    let id = get_i32(fields, "id")?;
    let raw_description = get_string(fields, "rawDescription")?;
    let raw_display_name = get_string(fields, "rawDisplayName")?;
    Ok(RuneTree { display_name, id, raw_description, raw_display_name })
}

/// Member names a stat-rune object may carry.
pub open spec fn stat_rune_keys() -> Seq<Seq<char>> {
    seq!["id"@, "rawDescription"@]
}

/// How a stat rune decodes from its object members.
pub open spec fn stat_rune_from_fields(fs: Seq<(String, JsonValue)>) -> Result<
    StatRune,
    DecodeErrView,
> {
    match spec_unknown_key(fs, stat_rune_keys()) {
        Some(k) => Err(DecodeErrView::SchemaMismatch(k@)),
        None => if sp_i32(fs, "id"@) is Err {
            Err(sp_i32(fs, "id"@)->Err_0)
        } else if sp_string(fs, "rawDescription"@) is Err {
            Err(sp_string(fs, "rawDescription"@)->Err_0)
        } else {
            Ok(
                StatRune {
                    id: sp_i32(fs, "id"@)->Ok_0,
                    raw_description: sp_string(fs, "rawDescription"@)->Ok_0,
                },
            )
        },
    }
}

/// Decode a stat-rune object.
pub fn decode_stat_rune(fields: &Vec<(String, JsonValue)>) -> (r: Result<StatRune, DecodeError>)
    ensures
        decoded(r) == stat_rune_from_fields(fields@),
{
    let allowed: [&str; 2] = ["id", "rawDescription"];
    proof {
        assert(key_views(allowed@) =~= stat_rune_keys());
    }
    if let Some(k) = check_keys(fields, &allowed) {
        return Err(DecodeError::SchemaMismatch(k));
    }
    let id = get_i32(fields, "id")?;
    let raw_description = get_string(fields, "rawDescription")?;
    Ok(StatRune { id, raw_description })
}

impl StatRune {
    /// Re-encode this stat rune as a JSON object. Decoding the result
    /// yields the stat rune back unchanged.
    pub fn to_json(&self) -> (v: JsonValue)
        ensures
            v matches JsonValue::Obj(o) && stat_rune_from_fields(o@) == Ok::<
                StatRune,
                DecodeErrView,
            >(*self),
    {
        let mut fields: Vec<(String, JsonValue)> = Vec::new();
        fields.push(
            (
                String::from_str("id"),
                JsonValue::Num(JsonNumber { int_val: Some(self.id as i64), bits: 0 }),
            ),
        );
        fields.push(
            (String::from_str("rawDescription"), JsonValue::Str(self.raw_description.clone())),
        );
        proof {
            reveal_strlit("id");
            reveal_strlit("rawDescription");
            assert("id"@.len() == 2);
            assert("rawDescription"@.len() == 14);
            let fs = fields@;
            let ks = stat_rune_keys();
            assert(fs.len() == 2);
            assert(fs[0].0@ == "id"@);
            assert(fs[1].0@ == "rawDescription"@);
            assert(ks[0] == "id"@);
            assert(ks[1] == "rawDescription"@);
            assert(ks.contains(fs[0].0@));
            assert(ks.contains(fs[1].0@));
            assert(fs.skip(1).skip(1) =~= fs.skip(2));
            assert(fs.skip(1)[0] == fs[1]);
            assert(fs.skip(2).len() == 0);
            assert(spec_unknown_key(fs.skip(2), ks) is None);
            assert(spec_unknown_key(fs.skip(1), ks) is None);
            assert(spec_unknown_key(fs, ks) is None);
            assert(spec_lookup(fs, "id"@) == Some(fs[0].1));
            assert(spec_lookup(fs.skip(1), "rawDescription"@) == Some(fs[1].1));
            assert(spec_lookup(fs, "rawDescription"@) == Some(fs[1].1));
            assert(stat_rune_from_fields(fs) == Ok::<StatRune, DecodeErrView>(*self));
        }
        JsonValue::Obj(fields)
    }
}

/// How one array element decodes as a rune.
pub open spec fn rune_elem(k: Seq<char>) -> spec_fn(JsonValue) -> Result<Rune, DecodeErrView> {
    |v: JsonValue|
        match v {
            JsonValue::Obj(o) => rune_from_fields(o@),
            _ => Err(DecodeErrView::SchemaMismatch(k)),
        }
}

/// Specification of a required array-of-runes field.
pub open spec fn sp_rune_vec(fs: Seq<(String, JsonValue)>, k: Seq<char>) -> Result<
    Seq<Rune>,
    DecodeErrView,
> {
    match sp_arr(fs, k) {
        Ok(a) => sp_seq_of(a@, rune_elem(k)),
        Err(e) => Err(e),
    }
}

/// Decode a required array-of-runes field.
pub fn get_rune_vec(fields: &Vec<(String, JsonValue)>, k: &str) -> (r: Result<
    Vec<Rune>,
    DecodeError,
>)
    ensures
        match r {
            Ok(v) => sp_rune_vec(fields@, k@) == Ok::<Seq<Rune>, DecodeErrView>(v@),
            Err(e) => sp_rune_vec(fields@, k@) == Err::<Seq<Rune>, DecodeErrView>(e@),
        },
{
    let arr = match get_arr(fields, k) {
        Ok(a) => a,
        Err(e) => {
            return Err(e);
        },
    };
    let ghost f = rune_elem(k@);
    let mut out: Vec<Rune> = Vec::new();
    let mut i: usize = 0;
    while i < arr.len()
        invariant
            0 <= i <= arr@.len(),
            out@.len() == i,
            f == rune_elem(k@),
            sp_arr(fields@, k@) == Ok::<Vec<JsonValue>, DecodeErrView>(*arr),
            forall|j: int| 0 <= j < i ==> f(arr@[j]) == Ok::<Rune, DecodeErrView>(out@[j]),
        decreases arr@.len() - i,
    {
        match &arr[i] {
            JsonValue::Obj(o) => match decode_rune(o) {
                Ok(x) => {
                    out.push(x);
                },
                Err(e) => {
                    proof {
                        lemma_seq_of_err(arr@, f, i as int, e@);
                    }
                    return Err(e);
                },
            },
            _ => {
                proof {
                    lemma_seq_of_err(arr@, f, i as int, DecodeErrView::SchemaMismatch(k@));
                }
                return Err(mismatch_for(k));
            },
        }
        i += 1;
    }
    proof {
        lemma_seq_of_ok(arr@, f, out@);
    }
    Ok(out)
}

/// How one array element decodes as a stat rune.
pub open spec fn stat_rune_elem(k: Seq<char>) -> spec_fn(JsonValue) -> Result<
    StatRune,
    DecodeErrView,
> {
    |v: JsonValue|
        match v {
            JsonValue::Obj(o) => stat_rune_from_fields(o@),
            _ => Err(DecodeErrView::SchemaMismatch(k)),
        }
}

/// Specification of a required array-of-stat-runes field.
pub open spec fn sp_stat_rune_vec(fs: Seq<(String, JsonValue)>, k: Seq<char>) -> Result<
    Seq<StatRune>,
    DecodeErrView,
> {
    match sp_arr(fs, k) {
        Ok(a) => sp_seq_of(a@, stat_rune_elem(k)),
        Err(e) => Err(e),
    }
}

/// Decode a required array-of-stat-runes field.
pub fn get_stat_rune_vec(fields: &Vec<(String, JsonValue)>, k: &str) -> (r: Result<
    Vec<StatRune>,
    DecodeError,
>)
    ensures
        match r {
            Ok(v) => sp_stat_rune_vec(fields@, k@) == Ok::<Seq<StatRune>, DecodeErrView>(v@),
            Err(e) => sp_stat_rune_vec(fields@, k@) == Err::<Seq<StatRune>, DecodeErrView>(e@),
        },
{
    let arr = match get_arr(fields, k) {
        Ok(a) => a,
        Err(e) => {
            return Err(e);
        },
    };
    let ghost f = stat_rune_elem(k@);
    let mut out: Vec<StatRune> = Vec::new();
    let mut i: usize = 0;
    while i < arr.len()
        invariant
            0 <= i <= arr@.len(),
            out@.len() == i,
            f == stat_rune_elem(k@),
            sp_arr(fields@, k@) == Ok::<Vec<JsonValue>, DecodeErrView>(*arr),
            forall|j: int| 0 <= j < i ==> f(arr@[j]) == Ok::<StatRune, DecodeErrView>(out@[j]),
        decreases arr@.len() - i,
    {
        match &arr[i] {
            JsonValue::Obj(o) => match decode_stat_rune(o) {
                Ok(x) => {
                    out.push(x);
                },
                Err(e) => {
                    proof {
                        lemma_seq_of_err(arr@, f, i as int, e@);
                    }
                    return Err(e);
                },
            },
            _ => {
                proof {
                    lemma_seq_of_err(arr@, f, i as int, DecodeErrView::SchemaMismatch(k@));
                }
                return Err(mismatch_for(k));
            },
        }
        i += 1;
    }
    proof {
        lemma_seq_of_ok(arr@, f, out@);
    }
    Ok(out)
}

/// Specification of a required rune-valued field.
pub open spec fn sp_rune_field(fs: Seq<(String, JsonValue)>, k: Seq<char>) -> Result<
    Rune,
    DecodeErrView,
> {
    match sp_obj(fs, k) {
        Ok(o) => rune_from_fields(o@),
        Err(e) => Err(e),
    }
}

/// Specification of a required rune-tree-valued field.
pub open spec fn sp_rune_tree_field(fs: Seq<(String, JsonValue)>, k: Seq<char>) -> Result<
    RuneTree,
    DecodeErrView,
> {
    match sp_obj(fs, k) {
        Ok(o) => rune_tree_from_fields(o@),
        Err(e) => Err(e),
    }
}

/// Member names a player-rune summary may carry.
pub open spec fn player_runes_keys() -> Seq<Seq<char>> {
    seq!["keystone"@, "primaryRuneTree"@, "secondaryRuneTree"@]
}

/// How a player-rune summary decodes from its object members.
pub open spec fn player_runes_from_fields(fs: Seq<(String, JsonValue)>) -> Result<
    PlayerRunes,
    DecodeErrView,
> {
    match spec_unknown_key(fs, player_runes_keys()) {
        Some(k) => Err(DecodeErrView::SchemaMismatch(k@)),
        None => if sp_rune_field(fs, "keystone"@) is Err {
            Err(sp_rune_field(fs, "keystone"@)->Err_0)
        } else if sp_rune_tree_field(fs, "primaryRuneTree"@) is Err {
            Err(sp_rune_tree_field(fs, "primaryRuneTree"@)->Err_0)
        } else if sp_rune_tree_field(fs, "secondaryRuneTree"@) is Err {
            Err(sp_rune_tree_field(fs, "secondaryRuneTree"@)->Err_0)
        } else {
            Ok(
                PlayerRunes {
                    keystone: sp_rune_field(fs, "keystone"@)->Ok_0,
                    primary_rune_tree: sp_rune_tree_field(fs, "primaryRuneTree"@)->Ok_0,
                    secondary_rune_tree: sp_rune_tree_field(fs, "secondaryRuneTree"@)->Ok_0,
                },
            )
        },
    }
}

/// Decode a player-rune summary.
pub fn decode_player_runes(fields: &Vec<(String, JsonValue)>) -> (r: Result<
    PlayerRunes,
    DecodeError,
>)
    ensures
        decoded(r) == player_runes_from_fields(fields@),
{
    let allowed: [&str; 3] = ["keystone", "primaryRuneTree", "secondaryRuneTree"];
    proof {
        assert(key_views(allowed@) =~= player_runes_keys());
    }
    if let Some(k) = check_keys(fields, &allowed) {
        return Err(DecodeError::SchemaMismatch(k));
    }
    let keystone = decode_rune(get_obj(fields, "keystone")?)?;
    let primary_rune_tree = decode_rune_tree(get_obj(fields, "primaryRuneTree")?)?;
    let secondary_rune_tree = decode_rune_tree(get_obj(fields, "secondaryRuneTree")?)?;
    Ok(PlayerRunes { keystone, primary_rune_tree, secondary_rune_tree })
}

/// Member names a full rune page may carry. The page may stand under
/// either of two field names in its owner; these are its own members.
pub open spec fn full_runes_keys() -> Seq<Seq<char>> {
    seq!["generalRunes"@, "keystone"@, "primaryRuneTree"@, "secondaryRuneTree"@, "statRunes"@]
}

/// How a full rune page decodes from its object members.
pub open spec fn full_runes_from_fields(fs: Seq<(String, JsonValue)>) -> Result<
    FullPlayerRunesV,
    DecodeErrView,
> {
    match spec_unknown_key(fs, full_runes_keys()) {
        Some(k) => Err(DecodeErrView::SchemaMismatch(k@)),
        None => if sp_rune_vec(fs, "generalRunes"@) is Err {
            Err(sp_rune_vec(fs, "generalRunes"@)->Err_0)
        } else if sp_rune_field(fs, "keystone"@) is Err {
            Err(sp_rune_field(fs, "keystone"@)->Err_0)
        } else if sp_rune_tree_field(fs, "primaryRuneTree"@) is Err {
            Err(sp_rune_tree_field(fs, "primaryRuneTree"@)->Err_0)
        } else if sp_rune_tree_field(fs, "secondaryRuneTree"@) is Err {
            Err(sp_rune_tree_field(fs, "secondaryRuneTree"@)->Err_0)
        } else if sp_stat_rune_vec(fs, "statRunes"@) is Err {
            Err(sp_stat_rune_vec(fs, "statRunes"@)->Err_0)
        } else {
            Ok(
                FullPlayerRunesV {
                    general_runes: sp_rune_vec(fs, "generalRunes"@)->Ok_0,
                    keystone: sp_rune_field(fs, "keystone"@)->Ok_0,
                    primary_rune_tree: sp_rune_tree_field(fs, "primaryRuneTree"@)->Ok_0,
                    secondary_rune_tree: sp_rune_tree_field(fs, "secondaryRuneTree"@)->Ok_0,
                    stat_runes: sp_stat_rune_vec(fs, "statRunes"@)->Ok_0,
                },
            )
        },
    }
}

/// Decode a full rune page.
pub fn decode_full_runes(fields: &Vec<(String, JsonValue)>) -> (r: Result<
    FullPlayerRunes,
    DecodeError,
>)
    ensures
        match r {
            Ok(x) => full_runes_from_fields(fields@) == Ok::<FullPlayerRunesV, DecodeErrView>(
                x@,
            ),
            Err(e) => full_runes_from_fields(fields@) == Err::<FullPlayerRunesV, DecodeErrView>(
                e@,
            ),
        },
{
    let allowed: [&str; 5] = [
        "generalRunes",
        "keystone",
        "primaryRuneTree",
        "secondaryRuneTree",
        "statRunes",
    ];
    proof {
        assert(key_views(allowed@) =~= full_runes_keys());
    }
    if let Some(k) = check_keys(fields, &allowed) {
        return Err(DecodeError::SchemaMismatch(k));
    }
    let general_runes = get_rune_vec(fields, "generalRunes")?;
    let keystone = decode_rune(get_obj(fields, "keystone")?)?;
    let primary_rune_tree = decode_rune_tree(get_obj(fields, "primaryRuneTree")?)?;
    let secondary_rune_tree = decode_rune_tree(get_obj(fields, "secondaryRuneTree")?)?;
    let stat_runes = get_stat_rune_vec(fields, "statRunes")?;
    Ok(
        FullPlayerRunes {
            general_runes,
            keystone,
            primary_rune_tree,
            secondary_rune_tree,
            stat_runes,
        },
    )
}

/// Specification of the full rune page standing under its primary field
/// name or its accepted alias.
pub open spec fn sp_full_runes_alias(
    fs: Seq<(String, JsonValue)>,
    k1: Seq<char>,
    k2: Seq<char>,
) -> Result<FullPlayerRunesV, DecodeErrView> {
    match sp_obj_alias(fs, k1, k2) {
        Ok(o) => full_runes_from_fields(o@),
        Err(e) => Err(e),
    }
}

/// Decode the full rune page standing under either field name.
pub fn get_full_runes_alias(fields: &Vec<(String, JsonValue)>, k1: &str, k2: &str) -> (r: Result<
    FullPlayerRunes,
    DecodeError,
>)
    ensures
        match r {
            Ok(x) => sp_full_runes_alias(fields@, k1@, k2@) == Ok::<
                FullPlayerRunesV,
                DecodeErrView,
            >(x@),
            Err(e) => sp_full_runes_alias(fields@, k1@, k2@) == Err::<
                FullPlayerRunesV,
                DecodeErrView,
            >(e@),
        },
{
    let o = match get_obj_alias(fields, k1, k2) {
        Ok(o) => o,
        Err(e) => {
            return Err(e);
        },
    };
    decode_full_runes(o)
}

} // verus!
