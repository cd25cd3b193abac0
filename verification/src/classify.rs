//! Classification of free-text engine identifiers into closed enumerations:
//! dragon kinds, turret slots, inhibitor slots and kill sources.
//!
//! The kill-source classifier is an ordered heuristic chain; the order is
//! load-bearing (exact dragon and turret matches come before substring
//! markers) and the final fallback makes the classification total.

use vstd::prelude::*;
use crate::strutil::{str_eq, str_contains, str_starts_with, contains_seq, starts_with_seq};

verus! {

/// The elemental dragon kinds. Each is reachable from two spellings: a
/// short form and a long engine form.
#[derive(Debug, Clone, Copy, PartialEq, Eq, Structural)]
pub enum DragonType {
    Infernal,
    Ocean,
    Mountain,
    Cloud,
    Hextech,
    Chemtech,
    Elder,
}

/// The named turret slots, plus `Unknown` for identifiers outside the
/// (incomplete) upstream catalogue.
#[derive(Debug, Clone, Copy, PartialEq, Eq, Structural)]
pub enum Turret {
    Team1C01A,
    Team1C02A,
    Team1C03A,
    Team1C04A,
    Team1C05A,
    Team1C06A,
    Team1C07A,
    Team1C08A,
    Team1C09A,
    Team1C10A,
    Team1L02A,
    Team1L03A,
    Team1R02A,
    Team1R03A,
    Team1Fountain,
    Team2C01A,
    Team2C02A,
    Team2C03A,
    Team2C04A,
    Team2C05A,
    Team2L01A,
    Team2L02A,
    Team2L03A,
    Team2L04A,
    Team2R01A,
    Team2R02A,
    Team2R03A,
    Team2Fountain,
    Obelisk,
    Unknown,
}

/// The named inhibitor slots, plus `Unknown`.
#[derive(Debug, Clone, Copy, PartialEq, Eq, Structural)]
pub enum Inhibitor {
    Team1L1,
    Team1C1,
    Team1R1,
    Team2L1,
    Team2C1,
    Team2R1,
    Unknown,
}

/// Who or what killed a unit. `Summoner` is the catch-all: classification
/// never fails.
#[derive(Debug, Clone, PartialEq)]
pub enum Killer {
    Minion,
    Dragon(DragonType),
    Gromp,
    Blue,
    Murkwolf,
    Razorbeak,
    Red,
    Krug,
    RiftHerald,
    Baron,
    Turret(Turret),
    Summoner(String),
}

/// `Killer` with the summoner name abstracted to its character sequence.
pub enum KillerV {
    Minion,
    Dragon(DragonType),
    Gromp,
    Blue,
    Murkwolf,
    Razorbeak,
    Red,
    Krug,
    RiftHerald,
    Baron,
    Turret(Turret),
    Summoner(Seq<char>),
}

impl View for Killer {
    type V = KillerV;

    open spec fn view(&self) -> KillerV {
        match self {
            Killer::Minion => KillerV::Minion,
            Killer::Dragon(d) => KillerV::Dragon(*d),
            Killer::Gromp => KillerV::Gromp,
            Killer::Blue => KillerV::Blue,
            Killer::Murkwolf => KillerV::Murkwolf,
            Killer::Razorbeak => KillerV::Razorbeak,
            Killer::Red => KillerV::Red,
            Killer::Krug => KillerV::Krug,
            Killer::RiftHerald => KillerV::RiftHerald,
            Killer::Baron => KillerV::Baron,
            Killer::Turret(t) => KillerV::Turret(*t),
            Killer::Summoner(s) => KillerV::Summoner(s@),
        }
    }
}

/// Which dragon kind a token spells, if any.
pub open spec fn dragon_of(s: Seq<char>) -> Option<DragonType> {
    if s == "Fire"@ || s == "SRU_Dragon_Fire"@ {
        Some(DragonType::Infernal)
    } else if s == "Water"@ || s == "SRU_Dragon_Water"@ {
        Some(DragonType::Ocean)
    } else if s == "Earth"@ || s == "SRU_Dragon_Earth"@ {
        Some(DragonType::Mountain)
    } else if s == "Air"@ || s == "SRU_Dragon_Air"@ {
        Some(DragonType::Cloud)
    } else if s == "Hextech"@ || s == "SRU_Dragon_Hextech"@ {
        Some(DragonType::Hextech)
    } else if s == "Chemtech"@ || s == "SRU_Dragon_Chemtech"@ {
        Some(DragonType::Chemtech)
    } else if s == "Elder"@ || s == "SRU_Dragon_Elder"@ {
        Some(DragonType::Elder)
    } else {
        None
    }
}

/// Which turret slot a token names; `Unknown` for anything else.
pub open spec fn turret_of(s: Seq<char>) -> Turret {
    if s == "Turret_T1_C_01_A"@ {
        Turret::Team1C01A
    } else if s == "Turret_T1_C_02_A"@ {
        Turret::Team1C02A
    } else if s == "Turret_T1_C_03_A"@ {
        Turret::Team1C03A
    } else if s == "Turret_T1_C_04_A"@ {
        Turret::Team1C04A
    } else if s == "Turret_T1_C_05_A"@ {
        Turret::Team1C05A
    } else if s == "Turret_T1_C_06_A"@ {
        Turret::Team1C06A
    } else if s == "Turret_T1_C_07_A"@ {
        Turret::Team1C07A
    } else if s == "Turret_T1_C_08_A"@ {
        Turret::Team1C08A
    } else if s == "Turret_T1_C_09_A"@ {
        Turret::Team1C09A
    } else if s == "Turret_T1_C_010_A"@ {
        Turret::Team1C10A
    } else if s == "Turret_T1_L_02_A"@ {
        Turret::Team1L02A
    } else if s == "Turret_T1_L_03_A"@ {
        Turret::Team1L03A
    } else if s == "Turret_T1_R_02_A"@ {
        Turret::Team1R02A
    } else if s == "Turret_T1_R_03_A"@ {
        Turret::Team1R03A
    } else if s == "Turret_OrderTurretShrine_A"@ {
        Turret::Team1Fountain
    } else if s == "Turret_T2_C_01_A"@ {
        Turret::Team2C01A
    } else if s == "Turret_T2_C_02_A"@ {
        Turret::Team2C02A
    } else if s == "Turret_T2_C_03_A"@ {
        Turret::Team2C03A
    } else if s == "Turret_T2_C_04_A"@ {
        Turret::Team2C04A
    } else if s == "Turret_T2_C_05_A"@ {
        Turret::Team2C05A
    } else if s == "Turret_T2_L_01_A"@ {
        Turret::Team2L01A
    } else if s == "Turret_T2_L_02_A"@ {
        Turret::Team2L02A
    } else if s == "Turret_T2_L_03_A"@ {
        Turret::Team2L03A
    } else if s == "Turret_T2_L_04_A"@ {
        Turret::Team2L04A
    } else if s == "Turret_T2_R_01_A"@ {
        Turret::Team2R01A
    } else if s == "Turret_T2_R_02_A"@ {
        Turret::Team2R02A
    } else if s == "Turret_T2_R_03_A"@ {
        Turret::Team2R03A
    } else if s == "Turret_ChaosTurretShrine_A"@ {
        Turret::Team2Fountain
    } else if s == "Obelisk"@ {
        Turret::Obelisk
    } else {
        Turret::Unknown
    }
}

/// Which inhibitor slot a token names; `Unknown` for anything else.
pub open spec fn inhibitor_of(s: Seq<char>) -> Inhibitor {
    if s == "Barracks_T1_L1"@ {
        Inhibitor::Team1L1
    } else if s == "Barracks_T1_C1"@ {
        Inhibitor::Team1C1
    } else if s == "Barracks_T1_R1"@ {
        Inhibitor::Team1R1
    } else if s == "Barracks_T2_L1"@ {
        Inhibitor::Team2L1
    } else if s == "Barracks_T2_C1"@ {
        Inhibitor::Team2C1
    } else if s == "Barracks_T2_R1"@ {
        Inhibitor::Team2R1
    } else {
        Inhibitor::Unknown
    }
}

/// The ordered kill-source heuristic chain, first match wins. The exact
/// dragon and turret matches come before the substring markers; a token
/// containing `"Baron"` maps to `RiftHerald`, faithfully to the upstream
/// vocabulary this models. The last arm makes the chain total.
pub open spec fn killer_of(s: Seq<char>) -> KillerV {
    if dragon_of(s) is Some {
        KillerV::Dragon(dragon_of(s)->0)
    } else if turret_of(s) != Turret::Unknown {
        KillerV::Turret(turret_of(s))
    } else if starts_with_seq(s, "Minion"@) {
        KillerV::Minion
    } else if contains_seq(s, "RiftHerald"@) {
        KillerV::RiftHerald
    } else if contains_seq(s, "Baron"@) {
        KillerV::RiftHerald
    } else if contains_seq(s, "Gromp"@) {
        KillerV::Gromp
    } else if contains_seq(s, "Blue"@) {
        KillerV::Blue
    } else if contains_seq(s, "Murkwolf"@) {
        KillerV::Murkwolf
    } else if contains_seq(s, "Razorbeak"@) {
        KillerV::Razorbeak
    } else if contains_seq(s, "Red"@) {
        KillerV::Red
    } else if contains_seq(s, "Krug"@) {
        KillerV::Krug
    } else {
        KillerV::Summoner(s)
    }
}

impl DragonType {
    /// Classify a dragon token. This sub-classifier is exhaustive, not
    /// fallback-based: a token that spells no dragon kind is an error
    /// carrying the token itself.
    pub fn from_str(s: &str) -> (r: Result<DragonType, String>)
        ensures
            match r {
                Ok(d) => dragon_of(s@) == Some(d),
                Err(e) => dragon_of(s@) is None && e@ == s@,
            },
    {
        if str_eq(s, "Fire") || str_eq(s, "SRU_Dragon_Fire") {
            Ok(DragonType::Infernal)
        } else if str_eq(s, "Water") || str_eq(s, "SRU_Dragon_Water") {
            Ok(DragonType::Ocean)
        } else if str_eq(s, "Earth") || str_eq(s, "SRU_Dragon_Earth") {
            Ok(DragonType::Mountain)
        } else if str_eq(s, "Air") || str_eq(s, "SRU_Dragon_Air") {
            Ok(DragonType::Cloud)
        } else if str_eq(s, "Hextech") || str_eq(s, "SRU_Dragon_Hextech") {
            Ok(DragonType::Hextech)
        } else if str_eq(s, "Chemtech") || str_eq(s, "SRU_Dragon_Chemtech") {
            Ok(DragonType::Chemtech)
        } else if str_eq(s, "Elder") || str_eq(s, "SRU_Dragon_Elder") {
            Ok(DragonType::Elder)
        } else {
            Err(s.to_owned())
        }
    }
}

impl Turret {
    /// Classify a turret token; never fails, unknown tokens are `Unknown`.
    pub fn from_str(s: &str) -> (r: Result<Turret, String>)
        ensures
            r matches Ok(t) && t == turret_of(s@),
    {
        let t = if str_eq(s, "Turret_T1_C_01_A") {
            Turret::Team1C01A
        } else if str_eq(s, "Turret_T1_C_02_A") {
            Turret::Team1C02A
        } else if str_eq(s, "Turret_T1_C_03_A") {
            Turret::Team1C03A
        } else if str_eq(s, "Turret_T1_C_04_A") {
            Turret::Team1C04A
        } else if str_eq(s, "Turret_T1_C_05_A") {
            Turret::Team1C05A
        } else if str_eq(s, "Turret_T1_C_06_A") {
            Turret::Team1C06A
        } else if str_eq(s, "Turret_T1_C_07_A") {
            Turret::Team1C07A
        } else if str_eq(s, "Turret_T1_C_08_A") {
            Turret::Team1C08A
        } else if str_eq(s, "Turret_T1_C_09_A") {
            Turret::Team1C09A
        } else if str_eq(s, "Turret_T1_C_010_A") {
            Turret::Team1C10A
        } else if str_eq(s, "Turret_T1_L_02_A") {
            Turret::Team1L02A
        } else if str_eq(s, "Turret_T1_L_03_A") {
            Turret::Team1L03A
        } else if str_eq(s, "Turret_T1_R_02_A") {
            Turret::Team1R02A
        } else if str_eq(s, "Turret_T1_R_03_A") {
            Turret::Team1R03A
        } else if str_eq(s, "Turret_OrderTurretShrine_A") {
            Turret::Team1Fountain
        } else if str_eq(s, "Turret_T2_C_01_A") {
            Turret::Team2C01A
        } else if str_eq(s, "Turret_T2_C_02_A") {
            Turret::Team2C02A
        } else if str_eq(s, "Turret_T2_C_03_A") {
            Turret::Team2C03A
        } else if str_eq(s, "Turret_T2_C_04_A") {
            Turret::Team2C04A
        } else if str_eq(s, "Turret_T2_C_05_A") {
            Turret::Team2C05A
        } else if str_eq(s, "Turret_T2_L_01_A") {
            Turret::Team2L01A
        } else if str_eq(s, "Turret_T2_L_02_A") {
            Turret::Team2L02A
        } else if str_eq(s, "Turret_T2_L_03_A") {
            Turret::Team2L03A
        } else if str_eq(s, "Turret_T2_L_04_A") {
            Turret::Team2L04A
        } else if str_eq(s, "Turret_T2_R_01_A") {
            Turret::Team2R01A
        } else if str_eq(s, "Turret_T2_R_02_A") {
            Turret::Team2R02A
        } else if str_eq(s, "Turret_T2_R_03_A") {
            Turret::Team2R03A
        } else if str_eq(s, "Turret_ChaosTurretShrine_A") {
            Turret::Team2Fountain
        } else if str_eq(s, "Obelisk") {
            Turret::Obelisk
        } else {
            Turret::Unknown
        };
        Ok(t)
    }
}

impl Inhibitor {
    /// Classify an inhibitor token; never fails, unknown tokens are
    /// `Unknown`.
    pub fn from_str(s: &str) -> (r: Result<Inhibitor, String>)
        ensures
            r matches Ok(i) && i == inhibitor_of(s@),
    {
        let i = if str_eq(s, "Barracks_T1_L1") {
            Inhibitor::Team1L1
        } else if str_eq(s, "Barracks_T1_C1") {
            Inhibitor::Team1C1
        } else if str_eq(s, "Barracks_T1_R1") {
            Inhibitor::Team1R1
        } else if str_eq(s, "Barracks_T2_L1") {
            Inhibitor::Team2L1
        } else if str_eq(s, "Barracks_T2_C1") {
            Inhibitor::Team2C1
        } else if str_eq(s, "Barracks_T2_R1") {
            Inhibitor::Team2R1
        } else {
            Inhibitor::Unknown
        };
        Ok(i)
    }
}

impl Killer {
    /// Classify a kill-source token along the ordered heuristic chain;
    /// never fails.
    pub fn from_str(s: &str) -> (r: Result<Killer, String>)
        ensures
            r matches Ok(k) && k@ == killer_of(s@),
    {
        match DragonType::from_str(s) {
            Ok(dragon) => {
                return Ok(Killer::Dragon(dragon));
            },
            Err(_) => {},
        }
        let turret = match Turret::from_str(s) {
            Ok(t) => t,
            Err(_) => Turret::Unknown,
        };
        if turret != Turret::Unknown {
            return Ok(Killer::Turret(turret));
        }
        if str_starts_with(s, "Minion") {
            return Ok(Killer::Minion);
        }
        if str_contains(s, "RiftHerald") {
            return Ok(Killer::RiftHerald);
        }
        // Faithful to the upstream vocabulary: a token containing "Baron"
        // classifies as RiftHerald, not as the Baron variant.
        if str_contains(s, "Baron") {
            return Ok(Killer::RiftHerald);
        }
        if str_contains(s, "Gromp") {
            return Ok(Killer::Gromp);
        }
        if str_contains(s, "Blue") {
            return Ok(Killer::Blue);
        }
        if str_contains(s, "Murkwolf") {
            return Ok(Killer::Murkwolf);
        }
        if str_contains(s, "Razorbeak") {
            return Ok(Killer::Razorbeak);
        }
        if str_contains(s, "Red") {
            return Ok(Killer::Red);
        }
        if str_contains(s, "Krug") {
            return Ok(Killer::Krug);
        }
        Ok(Killer::Summoner(s.to_owned()))
    }
}

} // verus!
