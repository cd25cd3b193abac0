//! The active-player section: abilities, champion statistics, the full
//! rune page, and the resolver that collapses the populated-or-error
//! union to an optional record.

use vstd::prelude::*;
use crate::json::{
    check_keys, decoded, get_bits, get_bool, get_i32, get_obj, get_string, key_views,
    mismatch_for, obj_get, sp_bits, sp_bool, sp_i32, sp_obj, sp_string,
    spec_unknown_key, DecodeErrView, DecodeError, JsonValue,
};
use crate::runes::{
    get_full_runes_alias, sp_full_runes_alias, FullPlayerRunes, FullPlayerRunesV,
};
use crate::strutil::str_eq;
use crate::{Level, NumBits, SummonerName};

verus! {

broadcast use vstd::std_specs::control_flow::group_control_flow_axioms;

/// Unspent gold, as the bit pattern of the upstream double.
pub type Gold = NumBits;

/// An ability's level.
pub type AbilityLevel = i32;

/// An ability's display name.
pub type AbilityName = String;

/// One levellable ability.
#[derive(Debug, Clone, PartialEq)]
pub struct Ability {
    pub ability_level: AbilityLevel,
    pub display_name: AbilityName,
    pub id: String,
    pub raw_description: String,
    pub raw_display_name: String,
}

/// The passive ability.
#[derive(Debug, Clone, PartialEq)]
pub struct Passive {
    pub display_name: AbilityName,
    pub id: String,
    pub raw_description: String,
    pub raw_display_name: String,
}

/// The five ability slots.
#[derive(Debug, Clone, PartialEq)]
pub struct PlayerAbilities {
    pub e: Ability,
    pub passive: Passive,
    pub q: Ability,
    pub r: Ability,
    pub w: Ability,
}

/// What fuels a champion's abilities; unrecognized literals are
/// `Unknown`.
#[derive(Debug, Clone, Copy, PartialEq, Eq, Structural)]
pub enum ResourceType {
    Mana,
    Energy,
    NoResource,
    Shield,
    Battlefury,
    Dragonfury,
    Rage,
    Heat,
    Gnarfury,
    Ferocity,
    Bloodwell,
    Wind,
    Ammo,
    Moonlight,
    Other,
    Max,
    Unknown,
}

/// Which resource an upstream literal names; unrecognized literals are
/// `Unknown`.
pub open spec fn resource_of(s: Seq<char>) -> ResourceType {
    if s == "MANA"@ {
        ResourceType::Mana
    } else if s == "ENERGY"@ {
        ResourceType::Energy
    } else if s == "NONE"@ {
        ResourceType::NoResource
    } else if s == "SHIELD"@ {
        ResourceType::Shield
    } else if s == "BATTLEFURY"@ {
        ResourceType::Battlefury
    } else if s == "DRAGONFURY"@ {
        ResourceType::Dragonfury
    } else if s == "RAGE"@ {
        ResourceType::Rage
    } else if s == "HEAT"@ {
        ResourceType::Heat
    } else if s == "GNARFURY"@ {
        ResourceType::Gnarfury
    } else if s == "FEROCITY"@ {
        ResourceType::Ferocity
    } else if s == "BLOODWELL"@ {
        ResourceType::Bloodwell
    } else if s == "WIND"@ {
        ResourceType::Wind
    } else if s == "AMMO"@ {
        ResourceType::Ammo
    } else if s == "MOONLIGHT"@ {
        ResourceType::Moonlight
    } else if s == "OTHER"@ {
        ResourceType::Other
    } else if s == "MAX"@ {
        ResourceType::Max
    } else {
        ResourceType::Unknown
    }
}

impl ResourceType {
    /// Classify a resource literal; never fails.
    pub fn from_str(s: &str) -> (r: ResourceType)
        ensures
            r == resource_of(s@),
    {
        if str_eq(s, "MANA") {
            ResourceType::Mana
        } else if str_eq(s, "ENERGY") {
            ResourceType::Energy
        } else if str_eq(s, "NONE") {
            ResourceType::NoResource
        } else if str_eq(s, "SHIELD") {
            ResourceType::Shield
        } else if str_eq(s, "BATTLEFURY") {
            ResourceType::Battlefury
        } else if str_eq(s, "DRAGONFURY") {
            ResourceType::Dragonfury
        } else if str_eq(s, "RAGE") {
            ResourceType::Rage
        } else if str_eq(s, "HEAT") {
            ResourceType::Heat
        } else if str_eq(s, "GNARFURY") {
            ResourceType::Gnarfury
        } else if str_eq(s, "FEROCITY") {
            ResourceType::Ferocity
        } else if str_eq(s, "BLOODWELL") {
            ResourceType::Bloodwell
        } else if str_eq(s, "WIND") {
            ResourceType::Wind
        } else if str_eq(s, "AMMO") {
            ResourceType::Ammo
        } else if str_eq(s, "MOONLIGHT") {
            ResourceType::Moonlight
        } else if str_eq(s, "OTHER") {
            ResourceType::Other
        } else if str_eq(s, "MAX") {
            ResourceType::Max
        } else {
            ResourceType::Unknown
        }
    }
}

/// Specification of a required resource-type field.
pub open spec fn sp_resource(fs: Seq<(String, JsonValue)>, k: Seq<char>) -> Result<
    ResourceType,
    DecodeErrView,
> {
    match sp_string(fs, k) {
        Ok(s) => Ok(resource_of(s@)),
        Err(e) => Err(e),
    }
}

/// Decode a required resource-type field.
pub fn get_resource(fields: &Vec<(String, JsonValue)>, k: &str) -> (r: Result<
    ResourceType,
    DecodeError,
>)
    ensures
        decoded(r) == sp_resource(fields@, k@),
{
    match obj_get(fields, k) {
        Some(JsonValue::Str(s)) => Ok(ResourceType::from_str(s.as_str())),
        _ => Err(mismatch_for(k)),
    }
}

/// Member names an ability object may carry.
pub open spec fn ability_keys() -> Seq<Seq<char>> {
    seq!["abilityLevel"@, "displayName"@, "id"@, "rawDescription"@, "rawDisplayName"@]
}

/// How an ability decodes from its object members.
pub open spec fn ability_from_fields(fs: Seq<(String, JsonValue)>) -> Result<
    Ability,
    DecodeErrView,
> {
    match spec_unknown_key(fs, ability_keys()) {
        Some(k) => Err(DecodeErrView::SchemaMismatch(k@)),
        None => if sp_i32(fs, "abilityLevel"@) is Err {
            Err(sp_i32(fs, "abilityLevel"@)->Err_0)
        } else if sp_string(fs, "displayName"@) is Err {
            Err(sp_string(fs, "displayName"@)->Err_0)
        } else if sp_string(fs, "id"@) is Err {
            Err(sp_string(fs, "id"@)->Err_0)
        } else if sp_string(fs, "rawDescription"@) is Err {
            Err(sp_string(fs, "rawDescription"@)->Err_0)
        } else if sp_string(fs, "rawDisplayName"@) is Err {
            Err(sp_string(fs, "rawDisplayName"@)->Err_0)
        } else {
            Ok(
                Ability {
                    ability_level: sp_i32(fs, "abilityLevel"@)->Ok_0,
                    display_name: sp_string(fs, "displayName"@)->Ok_0,
                    id: sp_string(fs, "id"@)->Ok_0,
                    raw_description: sp_string(fs, "rawDescription"@)->Ok_0,
                    raw_display_name: sp_string(fs, "rawDisplayName"@)->Ok_0,
                },
            )
        },
    }
}

/// Decode an ability object.
pub fn decode_ability(fields: &Vec<(String, JsonValue)>) -> (r: Result<Ability, DecodeError>)
    ensures
        decoded(r) == ability_from_fields(fields@),
{
    let allowed: [&str; 5] = [
        "abilityLevel",
        "displayName",
        "id",
        "rawDescription",
        "rawDisplayName",
    ];
    proof {
        assert(key_views(allowed@) =~= ability_keys());
    }
    if let Some(k) = check_keys(fields, &allowed) {
        return Err(DecodeError::SchemaMismatch(k));
    }
    let ability_level = get_i32(fields, "abilityLevel")?;
    let display_name = get_string(fields, "displayName")?;
    let id = get_string(fields, "id")?;
    let raw_description = get_string(fields, "rawDescription")?;
    let raw_display_name = get_string(fields, "rawDisplayName")?;
    Ok(Ability { ability_level, display_name, id, raw_description, raw_display_name })
}

/// Member names a passive object may carry.
pub open spec fn passive_keys() -> Seq<Seq<char>> {
    seq!["displayName"@, "id"@, "rawDescription"@, "rawDisplayName"@]
}

/// How a passive decodes from its object members.
pub open spec fn passive_from_fields(fs: Seq<(String, JsonValue)>) -> Result<
    Passive,
    DecodeErrView,
> {
    match spec_unknown_key(fs, passive_keys()) {
        Some(k) => Err(DecodeErrView::SchemaMismatch(k@)),
        None => if sp_string(fs, "displayName"@) is Err {
            Err(sp_string(fs, "displayName"@)->Err_0)
        } else if sp_string(fs, "id"@) is Err {
            Err(sp_string(fs, "id"@)->Err_0)
        } else if sp_string(fs, "rawDescription"@) is Err {
            Err(sp_string(fs, "rawDescription"@)->Err_0)
        } else if sp_string(fs, "rawDisplayName"@) is Err {
            Err(sp_string(fs, "rawDisplayName"@)->Err_0)
        } else {
            Ok(
                Passive {
                    display_name: sp_string(fs, "displayName"@)->Ok_0,
                    id: sp_string(fs, "id"@)->Ok_0,
                    raw_description: sp_string(fs, "rawDescription"@)->Ok_0,
                    raw_display_name: sp_string(fs, "rawDisplayName"@)->Ok_0,
                },
            )
        },
    }
}

/// Decode a passive object.
pub fn decode_passive(fields: &Vec<(String, JsonValue)>) -> (r: Result<Passive, DecodeError>)
    ensures
        decoded(r) == passive_from_fields(fields@),
{
    let allowed: [&str; 4] = ["displayName", "id", "rawDescription", "rawDisplayName"];
    proof {
        assert(key_views(allowed@) =~= passive_keys());
    }
    if let Some(k) = check_keys(fields, &allowed) {
        return Err(DecodeError::SchemaMismatch(k));
    }
    let display_name = get_string(fields, "displayName")?;
    let id = get_string(fields, "id")?;
    let raw_description = get_string(fields, "rawDescription")?;
    let raw_display_name = get_string(fields, "rawDisplayName")?;
    Ok(Passive { display_name, id, raw_description, raw_display_name })
}

/// Specification of a required ability-valued field.
pub open spec fn sp_ability_field(fs: Seq<(String, JsonValue)>, k: Seq<char>) -> Result<
    Ability,
    DecodeErrView,
> {
    match sp_obj(fs, k) {
        Ok(o) => ability_from_fields(o@),
        Err(e) => Err(e),
    }
}

/// Specification of a required passive-valued field.
pub open spec fn sp_passive_field(fs: Seq<(String, JsonValue)>, k: Seq<char>) -> Result<
    Passive,
    DecodeErrView,
> {
    match sp_obj(fs, k) {
        Ok(o) => passive_from_fields(o@),
        Err(e) => Err(e),
    }
}

/// Member names the ability-slot object may carry. This section names
/// its members in Pascal case, unlike its camel-case siblings.
pub open spec fn player_abilities_keys() -> Seq<Seq<char>> {
    seq!["E"@, "Passive"@, "Q"@, "R"@, "W"@]
}

/// How the ability slots decode from their object members.
pub open spec fn player_abilities_from_fields(fs: Seq<(String, JsonValue)>) -> Result<
    PlayerAbilities,
    DecodeErrView,
> {
    match spec_unknown_key(fs, player_abilities_keys()) {
        Some(k) => Err(DecodeErrView::SchemaMismatch(k@)),
        None => if sp_ability_field(fs, "E"@) is Err {
            Err(sp_ability_field(fs, "E"@)->Err_0)
        } else if sp_passive_field(fs, "Passive"@) is Err {
            Err(sp_passive_field(fs, "Passive"@)->Err_0)
        } else if sp_ability_field(fs, "Q"@) is Err {
            Err(sp_ability_field(fs, "Q"@)->Err_0)
        } else if sp_ability_field(fs, "R"@) is Err {
            Err(sp_ability_field(fs, "R"@)->Err_0)
        } else if sp_ability_field(fs, "W"@) is Err {
            Err(sp_ability_field(fs, "W"@)->Err_0)
        } else {
            Ok(
                PlayerAbilities {
                    e: sp_ability_field(fs, "E"@)->Ok_0,
                    passive: sp_passive_field(fs, "Passive"@)->Ok_0,
                    q: sp_ability_field(fs, "Q"@)->Ok_0,
                    r: sp_ability_field(fs, "R"@)->Ok_0,
                    w: sp_ability_field(fs, "W"@)->Ok_0,
                },
            )
        },
    }
}

/// Decode the ability-slot object.
pub fn decode_player_abilities(fields: &Vec<(String, JsonValue)>) -> (r: Result<
    PlayerAbilities,
    DecodeError,
>)
    ensures
        decoded(r) == player_abilities_from_fields(fields@),
{
    let allowed: [&str; 5] = ["E", "Passive", "Q", "R", "W"];
    proof {
        assert(key_views(allowed@) =~= player_abilities_keys());
    }
    if let Some(k) = check_keys(fields, &allowed) {
        return Err(DecodeError::SchemaMismatch(k));
    }
    let e = decode_ability(get_obj(fields, "E")?)?;
    let passive = decode_passive(get_obj(fields, "Passive")?)?;
    let q = decode_ability(get_obj(fields, "Q")?)?;
    let r = decode_ability(get_obj(fields, "R")?)?;
    let w = decode_ability(get_obj(fields, "W")?)?;
    Ok(PlayerAbilities { e, passive, q, r, w })
}

/// The champion statistics of the active player. Every fractional
/// statistic is carried as the bit pattern of the upstream double.
#[derive(Debug, Clone, PartialEq)]
pub struct PlayerChampionStats {
    pub ability_haste: NumBits,
    pub ability_power: NumBits,
    pub armor: NumBits,
    pub armor_penetration_flat: NumBits,
    pub armor_penetration_percent: NumBits,
    pub attack_damage: NumBits,
    pub attack_range: NumBits,
    pub attack_speed: NumBits,
    pub bonus_armor_penetration_percent: NumBits,
    pub bonus_magic_penetration_percent: NumBits,
    pub crit_chance: NumBits,
    pub crit_damage: NumBits,
    pub current_health: NumBits,
    pub heal_shield_power: NumBits,
    pub health_regen_rate: NumBits,
    pub life_steal: NumBits,
    pub magic_lethality: NumBits,
    pub magic_penetration_flat: NumBits,
    pub magic_penetration_percent: NumBits,
    pub magic_resist: NumBits,
    pub max_health: NumBits,
    pub move_speed: NumBits,
    pub omnivamp: NumBits,
    pub physical_lethality: NumBits,
    pub physical_vamp: NumBits,
    pub resource_max: NumBits,
    pub resource_regen_rate: NumBits,
    pub resource_type: ResourceType,
    pub resource_value: NumBits,
    pub spell_vamp: NumBits,
    pub tenacity: NumBits,
}

/// Member names the champion-statistics object may carry.
pub open spec fn champion_stats_keys() -> Seq<Seq<char>> {
    seq![
        "abilityHaste"@,
        "abilityPower"@,
        "armor"@,
        "armorPenetrationFlat"@,
        "armorPenetrationPercent"@,
        "attackDamage"@,
        "attackRange"@,
        "attackSpeed"@,
        "bonusArmorPenetrationPercent"@,
        "bonusMagicPenetrationPercent"@,
        "critChance"@,
        "critDamage"@,
        "currentHealth"@,
        "healShieldPower"@,
        "healthRegenRate"@,
        "lifeSteal"@,
        "magicLethality"@,
        "magicPenetrationFlat"@,
        "magicPenetrationPercent"@,
        "magicResist"@,
        "maxHealth"@,
        "moveSpeed"@,
        "omnivamp"@,
        "physicalLethality"@,
        "physicalVamp"@,
        "resourceMax"@,
        "resourceRegenRate"@,
        "resourceType"@,
        "resourceValue"@,
        "spellVamp"@,
        "tenacity"@,
    ]
}

/// The first statistic member that fails to decode, if any.
pub open spec fn champion_stats_err(fs: Seq<(String, JsonValue)>) -> Option<DecodeErrView> {
    if sp_bits(fs, "abilityHaste"@) is Err {
        Some(sp_bits(fs, "abilityHaste"@)->Err_0)
    } else if sp_bits(fs, "abilityPower"@) is Err {
        Some(sp_bits(fs, "abilityPower"@)->Err_0)
    } else if sp_bits(fs, "armor"@) is Err {
        Some(sp_bits(fs, "armor"@)->Err_0)
    } else if sp_bits(fs, "armorPenetrationFlat"@) is Err {
        Some(sp_bits(fs, "armorPenetrationFlat"@)->Err_0)
    } else if sp_bits(fs, "armorPenetrationPercent"@) is Err {
        Some(sp_bits(fs, "armorPenetrationPercent"@)->Err_0)
    } else if sp_bits(fs, "attackDamage"@) is Err {
        Some(sp_bits(fs, "attackDamage"@)->Err_0)
    } else if sp_bits(fs, "attackRange"@) is Err {
        Some(sp_bits(fs, "attackRange"@)->Err_0)
    } else if sp_bits(fs, "attackSpeed"@) is Err {
        Some(sp_bits(fs, "attackSpeed"@)->Err_0)
    } else if sp_bits(fs, "bonusArmorPenetrationPercent"@) is Err {
        Some(sp_bits(fs, "bonusArmorPenetrationPercent"@)->Err_0)
    } else if sp_bits(fs, "bonusMagicPenetrationPercent"@) is Err {
        Some(sp_bits(fs, "bonusMagicPenetrationPercent"@)->Err_0)
    } else if sp_bits(fs, "critChance"@) is Err {
        Some(sp_bits(fs, "critChance"@)->Err_0)
    } else if sp_bits(fs, "critDamage"@) is Err {
        Some(sp_bits(fs, "critDamage"@)->Err_0)
    } else if sp_bits(fs, "currentHealth"@) is Err {
        Some(sp_bits(fs, "currentHealth"@)->Err_0)
    } else if sp_bits(fs, "healShieldPower"@) is Err {
        Some(sp_bits(fs, "healShieldPower"@)->Err_0)
    } else if sp_bits(fs, "healthRegenRate"@) is Err {
        Some(sp_bits(fs, "healthRegenRate"@)->Err_0)
    } else if sp_bits(fs, "lifeSteal"@) is Err {
        Some(sp_bits(fs, "lifeSteal"@)->Err_0)
    } else if sp_bits(fs, "magicLethality"@) is Err {
        Some(sp_bits(fs, "magicLethality"@)->Err_0)
    } else if sp_bits(fs, "magicPenetrationFlat"@) is Err {
        Some(sp_bits(fs, "magicPenetrationFlat"@)->Err_0)
    } else if sp_bits(fs, "magicPenetrationPercent"@) is Err {
        Some(sp_bits(fs, "magicPenetrationPercent"@)->Err_0)
    } else if sp_bits(fs, "magicResist"@) is Err {
        Some(sp_bits(fs, "magicResist"@)->Err_0)
    } else if sp_bits(fs, "maxHealth"@) is Err {
        Some(sp_bits(fs, "maxHealth"@)->Err_0)
    } else if sp_bits(fs, "moveSpeed"@) is Err {
        Some(sp_bits(fs, "moveSpeed"@)->Err_0)
    } else if sp_bits(fs, "omnivamp"@) is Err {
        Some(sp_bits(fs, "omnivamp"@)->Err_0)
    } else if sp_bits(fs, "physicalLethality"@) is Err {
        Some(sp_bits(fs, "physicalLethality"@)->Err_0)
    } else if sp_bits(fs, "physicalVamp"@) is Err {
        Some(sp_bits(fs, "physicalVamp"@)->Err_0)
    } else if sp_bits(fs, "resourceMax"@) is Err {
        Some(sp_bits(fs, "resourceMax"@)->Err_0)
    } else if sp_bits(fs, "resourceRegenRate"@) is Err {
        Some(sp_bits(fs, "resourceRegenRate"@)->Err_0)
    } else if sp_resource(fs, "resourceType"@) is Err {
        Some(sp_resource(fs, "resourceType"@)->Err_0)
    } else if sp_bits(fs, "resourceValue"@) is Err {
        Some(sp_bits(fs, "resourceValue"@)->Err_0)
    } else if sp_bits(fs, "spellVamp"@) is Err {
        Some(sp_bits(fs, "spellVamp"@)->Err_0)
    } else if sp_bits(fs, "tenacity"@) is Err {
        Some(sp_bits(fs, "tenacity"@)->Err_0)
    } else {
        None
    }
}

/// How the champion statistics decode from their object members.
pub open spec fn champion_stats_from_fields(fs: Seq<(String, JsonValue)>) -> Result<
    PlayerChampionStats,
    DecodeErrView,
> {
    match spec_unknown_key(fs, champion_stats_keys()) {
        Some(k) => Err(DecodeErrView::SchemaMismatch(k@)),
        None => match champion_stats_err(fs) {
            Some(e) => Err(e),
            None => Ok(
                PlayerChampionStats {
                    ability_haste: sp_bits(fs, "abilityHaste"@)->Ok_0,
                    ability_power: sp_bits(fs, "abilityPower"@)->Ok_0,
                    armor: sp_bits(fs, "armor"@)->Ok_0,
                    armor_penetration_flat: sp_bits(fs, "armorPenetrationFlat"@)->Ok_0,
                    armor_penetration_percent: sp_bits(fs, "armorPenetrationPercent"@)->Ok_0,
                    attack_damage: sp_bits(fs, "attackDamage"@)->Ok_0,
                    attack_range: sp_bits(fs, "attackRange"@)->Ok_0,
                    attack_speed: sp_bits(fs, "attackSpeed"@)->Ok_0,
                    bonus_armor_penetration_percent: sp_bits(
                        fs,
                        "bonusArmorPenetrationPercent"@,
                    )->Ok_0,
                    bonus_magic_penetration_percent: sp_bits(
                        fs,
                        "bonusMagicPenetrationPercent"@,
                    )->Ok_0,
                    crit_chance: sp_bits(fs, "critChance"@)->Ok_0,
                    crit_damage: sp_bits(fs, "critDamage"@)->Ok_0,
                    current_health: sp_bits(fs, "currentHealth"@)->Ok_0,
                    heal_shield_power: sp_bits(fs, "healShieldPower"@)->Ok_0,
                    health_regen_rate: sp_bits(fs, "healthRegenRate"@)->Ok_0,
                    life_steal: sp_bits(fs, "lifeSteal"@)->Ok_0,
                    magic_lethality: sp_bits(fs, "magicLethality"@)->Ok_0,
                    magic_penetration_flat: sp_bits(fs, "magicPenetrationFlat"@)->Ok_0,
                    magic_penetration_percent: sp_bits(fs, "magicPenetrationPercent"@)->Ok_0,
                    magic_resist: sp_bits(fs, "magicResist"@)->Ok_0,
                    max_health: sp_bits(fs, "maxHealth"@)->Ok_0,
                    move_speed: sp_bits(fs, "moveSpeed"@)->Ok_0,
                    omnivamp: sp_bits(fs, "omnivamp"@)->Ok_0,
                    physical_lethality: sp_bits(fs, "physicalLethality"@)->Ok_0,
                    physical_vamp: sp_bits(fs, "physicalVamp"@)->Ok_0,
                    resource_max: sp_bits(fs, "resourceMax"@)->Ok_0,
                    resource_regen_rate: sp_bits(fs, "resourceRegenRate"@)->Ok_0,
                    resource_type: sp_resource(fs, "resourceType"@)->Ok_0,
                    resource_value: sp_bits(fs, "resourceValue"@)->Ok_0,
                    spell_vamp: sp_bits(fs, "spellVamp"@)->Ok_0,
                    tenacity: sp_bits(fs, "tenacity"@)->Ok_0,
                },
            ),
        },
    }
}

/// Decode the champion-statistics object.
#[verifier::rlimit(60)]
pub fn decode_champion_stats(fields: &Vec<(String, JsonValue)>) -> (r: Result<
    PlayerChampionStats,
    DecodeError,
>)
    ensures
        decoded(r) == champion_stats_from_fields(fields@),
{
    let allowed: [&str; 31] = [
        "abilityHaste",
        "abilityPower",
        "armor",
        "armorPenetrationFlat",
        "armorPenetrationPercent",
        "attackDamage",
        "attackRange",
        "attackSpeed",
        "bonusArmorPenetrationPercent",
        "bonusMagicPenetrationPercent",
        "critChance",
        "critDamage",
        "currentHealth",
        "healShieldPower",
        "healthRegenRate",
        "lifeSteal",
        "magicLethality",
        "magicPenetrationFlat",
        "magicPenetrationPercent",
        "magicResist",
        "maxHealth",
        "moveSpeed",
        "omnivamp",
        "physicalLethality",
        "physicalVamp",
        "resourceMax",
        "resourceRegenRate",
        "resourceType",
        "resourceValue",
        "spellVamp",
        "tenacity",
    ];
    proof {
        assert(key_views(allowed@) =~= champion_stats_keys());
    }
    if let Some(k) = check_keys(fields, &allowed) {
        return Err(DecodeError::SchemaMismatch(k));
    }
    let ability_haste = get_bits(fields, "abilityHaste")?;
    let ability_power = get_bits(fields, "abilityPower")?;
    let armor = get_bits(fields, "armor")?;
    let armor_penetration_flat = get_bits(fields, "armorPenetrationFlat")?;
    let armor_penetration_percent = get_bits(fields, "armorPenetrationPercent")?;
    let attack_damage = get_bits(fields, "attackDamage")?;
    let attack_range = get_bits(fields, "attackRange")?;
    let attack_speed = get_bits(fields, "attackSpeed")?;
    let bonus_armor_penetration_percent = get_bits(fields, "bonusArmorPenetrationPercent")?;
    let bonus_magic_penetration_percent = get_bits(fields, "bonusMagicPenetrationPercent")?;
    let crit_chance = get_bits(fields, "critChance")?;
    let crit_damage = get_bits(fields, "critDamage")?;
    let current_health = get_bits(fields, "currentHealth")?;
    let heal_shield_power = get_bits(fields, "healShieldPower")?;
    let health_regen_rate = get_bits(fields, "healthRegenRate")?;
    let life_steal = get_bits(fields, "lifeSteal")?;
    let magic_lethality = get_bits(fields, "magicLethality")?;
    let magic_penetration_flat = get_bits(fields, "magicPenetrationFlat")?;
    let magic_penetration_percent = get_bits(fields, "magicPenetrationPercent")?;
    let magic_resist = get_bits(fields, "magicResist")?;
    let max_health = get_bits(fields, "maxHealth")?;
    let move_speed = get_bits(fields, "moveSpeed")?;
    let omnivamp = get_bits(fields, "omnivamp")?;
    let physical_lethality = get_bits(fields, "physicalLethality")?;
    let physical_vamp = get_bits(fields, "physicalVamp")?;
    let resource_max = get_bits(fields, "resourceMax")?;
    let resource_regen_rate = get_bits(fields, "resourceRegenRate")?;
    let resource_type = get_resource(fields, "resourceType")?;
    let resource_value = get_bits(fields, "resourceValue")?;
    let spell_vamp = get_bits(fields, "spellVamp")?;
    let tenacity = get_bits(fields, "tenacity")?;
    Ok(
        PlayerChampionStats {
            ability_haste,
            ability_power,
            armor,
            armor_penetration_flat,
            armor_penetration_percent,
            attack_damage,
            attack_range,
            attack_speed,
            bonus_armor_penetration_percent,
            bonus_magic_penetration_percent,
            crit_chance,
            crit_damage,
            current_health,
            heal_shield_power,
            health_regen_rate,
            life_steal,
            magic_lethality,
            magic_penetration_flat,
            magic_penetration_percent,
            magic_resist,
            max_health,
            move_speed,
            omnivamp,
            physical_lethality,
            physical_vamp,
            resource_max,
            resource_regen_rate,
            resource_type,
            resource_value,
            spell_vamp,
            tenacity,
        },
    )
}

/// The active player's record: present only in a participant's own
/// client, absent when spectating.
#[derive(Debug, Clone, PartialEq)]
pub struct ActivePlayer {
    pub abilities: PlayerAbilities,
    pub champion_stats: PlayerChampionStats,
    pub current_gold: Gold,
    pub runes: FullPlayerRunes,
    pub level: Level,
    pub summoner_name: SummonerName,
    pub team_relative_colors: bool,
}

/// View of `ActivePlayer`.
pub struct ActivePlayerV {
    pub abilities: PlayerAbilities,
    pub champion_stats: PlayerChampionStats,
    pub current_gold: Gold,
    pub runes: FullPlayerRunesV,
    pub level: Level,
    pub summoner_name: SummonerName,
    pub team_relative_colors: bool,
}

impl View for ActivePlayer {
    type V = ActivePlayerV;

    open spec fn view(&self) -> ActivePlayerV {
        ActivePlayerV {
            abilities: self.abilities,
            champion_stats: self.champion_stats,
            current_gold: self.current_gold,
            runes: self.runes@,
            level: self.level,
            summoner_name: self.summoner_name,
            team_relative_colors: self.team_relative_colors,
        }
    }
}

/// Member names a populated active-player object may carry; the rune page
/// is accepted under either of two names.
pub open spec fn active_player_keys() -> Seq<Seq<char>> {
    seq![
        "abilities"@,
        "championStats"@,
        "currentGold"@,
        "fullRunes"@,
        "level"@,
        "runes"@,
        "summonerName"@,
        "teamRelativeColors"@,
    ]
}

/// Specification of a required abilities-valued field.
pub open spec fn sp_abilities_field(fs: Seq<(String, JsonValue)>, k: Seq<char>) -> Result<
    PlayerAbilities,
    DecodeErrView,
> {
    match sp_obj(fs, k) {
        Ok(o) => player_abilities_from_fields(o@),
        Err(e) => Err(e),
    }
}

/// Specification of a required champion-statistics-valued field.
pub open spec fn sp_stats_field(fs: Seq<(String, JsonValue)>, k: Seq<char>) -> Result<
    PlayerChampionStats,
    DecodeErrView,
> {
    match sp_obj(fs, k) {
        Ok(o) => champion_stats_from_fields(o@),
        Err(e) => Err(e),
    }
}

/// How a populated active-player record decodes from its object members.
pub open spec fn active_player_from_fields(fs: Seq<(String, JsonValue)>) -> Result<
    ActivePlayerV,
    DecodeErrView,
> {
    match spec_unknown_key(fs, active_player_keys()) {
        Some(k) => Err(DecodeErrView::SchemaMismatch(k@)),
        None => if sp_abilities_field(fs, "abilities"@) is Err {
            Err(sp_abilities_field(fs, "abilities"@)->Err_0)
        } else if sp_stats_field(fs, "championStats"@) is Err {
            Err(sp_stats_field(fs, "championStats"@)->Err_0)
        } else if sp_bits(fs, "currentGold"@) is Err {
            Err(sp_bits(fs, "currentGold"@)->Err_0)
        } else if sp_full_runes_alias(fs, "runes"@, "fullRunes"@) is Err {
            Err(sp_full_runes_alias(fs, "runes"@, "fullRunes"@)->Err_0)
        } else if sp_i32(fs, "level"@) is Err {
            Err(sp_i32(fs, "level"@)->Err_0)
        } else if sp_string(fs, "summonerName"@) is Err {
            Err(sp_string(fs, "summonerName"@)->Err_0)
        } else if sp_bool(fs, "teamRelativeColors"@) is Err {
            Err(sp_bool(fs, "teamRelativeColors"@)->Err_0)
        } else {
            Ok(
                ActivePlayerV {
                    abilities: sp_abilities_field(fs, "abilities"@)->Ok_0,
                    champion_stats: sp_stats_field(fs, "championStats"@)->Ok_0,
                    current_gold: sp_bits(fs, "currentGold"@)->Ok_0,
                    runes: sp_full_runes_alias(fs, "runes"@, "fullRunes"@)->Ok_0,
                    level: sp_i32(fs, "level"@)->Ok_0,
                    summoner_name: sp_string(fs, "summonerName"@)->Ok_0,
                    team_relative_colors: sp_bool(fs, "teamRelativeColors"@)->Ok_0,
                },
            )
        },
    }
}

/// Decode a populated active-player object.
pub fn decode_active_player(fields: &Vec<(String, JsonValue)>) -> (r: Result<
    ActivePlayer,
    DecodeError,
>)
    ensures
        match r {
            Ok(x) => active_player_from_fields(fields@) == Ok::<ActivePlayerV, DecodeErrView>(
                x@,
            ),
            Err(e) => active_player_from_fields(fields@) == Err::<ActivePlayerV, DecodeErrView>(
                e@,
            ),
        },
{
    let allowed: [&str; 8] = [
        "abilities",
        "championStats",
        "currentGold",
        "fullRunes",
        "level",
        "runes",
        "summonerName",
        "teamRelativeColors",
    ];
    proof {
        assert(key_views(allowed@) =~= active_player_keys());
    }
    if let Some(k) = check_keys(fields, &allowed) {
        return Err(DecodeError::SchemaMismatch(k));
    }
    let abilities = decode_player_abilities(get_obj(fields, "abilities")?)?;
    let champion_stats = decode_champion_stats(get_obj(fields, "championStats")?)?;
    let current_gold = get_bits(fields, "currentGold")?;
    let runes = get_full_runes_alias(fields, "runes", "fullRunes")?;
    let level = get_i32(fields, "level")?;
    let summoner_name = get_string(fields, "summonerName")?;
    let team_relative_colors = get_bool(fields, "teamRelativeColors")?;
    Ok(
        ActivePlayer {
            abilities,
            champion_stats,
            current_gold,
            runes,
            level,
            summoner_name,
            team_relative_colors,
        },
    )
}

/// Is this object the explicit error marker: exactly one member, named
/// `error`, carrying a string?
pub open spec fn is_error_shape(o: Seq<(String, JsonValue)>) -> bool {
    o.len() == 1 && o[0].0@ == "error"@ && o[0].1 is Str
}

/// The view of an optional active player.
pub open spec fn opt_active_view(o: Option<ActivePlayer>) -> Option<ActivePlayerV> {
    match o {
        Some(a) => Some(a@),
        None => None,
    }
}

/// How the active-player section resolves: the error marker collapses to
/// `None`, a populated record to `Some`; no other shape is valid.
pub open spec fn active_player_option_from_json(v: JsonValue) -> Result<
    Option<ActivePlayerV>,
    DecodeErrView,
> {
    match v {
        JsonValue::Obj(o) => if is_error_shape(o@) {
            Ok(None)
        } else {
            match active_player_from_fields(o@) {
                Ok(a) => Ok(Some(a)),
                Err(e) => Err(e),
            }
        },
        _ => Err(DecodeErrView::SchemaMismatch("activePlayer"@)),
    }
}

/// Resolve the active-player section to an optional record: `Some` for a
/// populated shape, `None` for the explicit error marker.
pub fn decode_active_player_option(v: &JsonValue) -> (r: Result<
    Option<ActivePlayer>,
    DecodeError,
>)
    ensures
        match r {
            Ok(opt) => active_player_option_from_json(*v) == Ok::<
                Option<ActivePlayerV>,
                DecodeErrView,
            >(opt_active_view(opt)),
            Err(e) => active_player_option_from_json(*v) == Err::<
                Option<ActivePlayerV>,
                DecodeErrView,
            >(e@),
        },
{
    let fields = match v {
        JsonValue::Obj(o) => o,
        _ => {
            return Err(mismatch_for("activePlayer"));
        },
    };
    if fields.len() == 1 && str_eq(fields[0].0.as_str(), "error") {
        let is_msg = match &fields[0].1 {
            JsonValue::Str(_) => true,
            _ => false,
        };
        if is_msg {
            return Ok(None);
        }
    }
    match decode_active_player(fields) {
        Ok(a) => Ok(Some(a)),
        Err(e) => Err(e),
    }
}

} // verus!
