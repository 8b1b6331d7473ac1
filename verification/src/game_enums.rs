//! Game-specific enumerations.
//!
//! These map the raw integer IDs used in RPCs and fields to typed Rust
//! enum variants. The raw `i32` fields on events stay available for
//! forward-compatibility when the game adds new values.

use vstd::prelude::*;

use crate::text::str_eq;

verus! {

/// How the damage was dealt.
#[derive(Debug, Clone, Copy, PartialEq, Eq, Hash, Structural)]
pub enum DamageType {
    Accident,
    Bullet,
    Launcher,
    Grenade,
    Shell,
    VehicleExplosion,
    Artillery,
    Nuke,
}

impl DamageType {
    /// The raw integer the game uses for this variant.
    pub open spec fn raw(self) -> i32 {
        match self {
            DamageType::Accident => 0,
            DamageType::Bullet => 1,
            DamageType::Launcher => 2,
            DamageType::Grenade => 3,
            DamageType::Shell => 4,
            DamageType::VehicleExplosion => 5,
            DamageType::Artillery => 6,
            DamageType::Nuke => 7,
        }
    }

    /// The human-readable name of this variant.
    pub open spec fn spec_name(self) -> Seq<char> {
        match self {
            DamageType::Accident => "accident"@,
            DamageType::Bullet => "bullet"@,
            DamageType::Launcher => "launcher"@,
            DamageType::Grenade => "grenade"@,
            DamageType::Shell => "shell"@,
            DamageType::VehicleExplosion => "vehicleExplosion"@,
            DamageType::Artillery => "artillery"@,
            DamageType::Nuke => "nuke"@,
        }
    }

    /// Convert a raw integer to the enum. Returns `None` for unknown values.
    pub fn from_raw(v: i32) -> (r: Option<Self>)
        ensures
            r is Some <==> 0 <= v <= 7,
            r matches Some(t) ==> t.raw() == v,
    {
        match v {
            0 => Some(DamageType::Accident),
            1 => Some(DamageType::Bullet),
            2 => Some(DamageType::Launcher),
            3 => Some(DamageType::Grenade),
            4 => Some(DamageType::Shell),
            5 => Some(DamageType::VehicleExplosion),
            6 => Some(DamageType::Artillery),
            7 => Some(DamageType::Nuke),
            _ => None,
        }
    }

    /// Human-readable name.
    pub fn name(&self) -> (r: &'static str)
        ensures
            r@ == self.spec_name(),
    {
        match self {
            DamageType::Accident => "accident",
            DamageType::Bullet => "bullet",
            DamageType::Launcher => "launcher",
            DamageType::Grenade => "grenade",
            DamageType::Shell => "shell",
            DamageType::VehicleExplosion => "vehicleExplosion",
            DamageType::Artillery => "artillery",
            DamageType::Nuke => "nuke",
        }
    }
}

/// Equipment / gadget slot items.
#[derive(Debug, Clone, Copy, PartialEq, Eq, Hash, Structural)]
pub enum GadgetId {
    Bazooka,
    BandagePouch,
    AmmoPouch,
    Panzerschreck,
}

impl GadgetId {
    /// The raw integer the game uses for this variant.
    pub open spec fn raw(self) -> i32 {
        match self {
            GadgetId::Bazooka => 0,
            GadgetId::BandagePouch => 1,
            GadgetId::AmmoPouch => 2,
            GadgetId::Panzerschreck => 3,
        }
    }

    /// The human-readable name of this variant.
    pub open spec fn spec_name(self) -> Seq<char> {
        match self {
            GadgetId::Bazooka => "Bazooka"@,
            GadgetId::BandagePouch => "BandagePouch"@,
            GadgetId::AmmoPouch => "AmmoPouch"@,
            GadgetId::Panzerschreck => "Panzerschreck"@,
        }
    }

    /// Convert a raw integer to the enum. Returns `None` for unknown values.
    pub fn from_raw(v: i32) -> (r: Option<Self>)
        ensures
            r is Some <==> 0 <= v <= 3,
            r matches Some(t) ==> t.raw() == v,
    {
        match v {
            0 => Some(GadgetId::Bazooka),
            1 => Some(GadgetId::BandagePouch),
            2 => Some(GadgetId::AmmoPouch),
            3 => Some(GadgetId::Panzerschreck),
            _ => None,
        }
    }

    /// Human-readable name.
    pub fn name(&self) -> (r: &'static str)
        ensures
            r@ == self.spec_name(),
    {
        match self {
            GadgetId::Bazooka => "Bazooka",
            GadgetId::BandagePouch => "BandagePouch",
            GadgetId::AmmoPouch => "AmmoPouch",
            GadgetId::Panzerschreck => "Panzerschreck",
        }
    }
}

/// Primary / secondary weapon identifiers.
#[derive(Debug, Clone, Copy, PartialEq, Eq, Hash, Structural)]
pub enum WeaponId {
    M1915,
    M1Garand,
    Mp40,
    Kar98k,
    Stg44,
    Mg42,
    Sten,
    Mg34,
    M2Browning,
    Welrod,
}

impl WeaponId {
    /// The raw integer the game uses for this variant.
    pub open spec fn raw(self) -> i32 {
        match self {
            WeaponId::M1915 => 0,
            WeaponId::M1Garand => 1,
            WeaponId::Mp40 => 2,
            WeaponId::Kar98k => 3,
            WeaponId::Stg44 => 4,
            WeaponId::Mg42 => 5,
            WeaponId::Sten => 6,
            WeaponId::Mg34 => 7,
            WeaponId::M2Browning => 8,
            WeaponId::Welrod => 9,
        }
    }

    /// The human-readable name of this variant.
    pub open spec fn spec_name(self) -> Seq<char> {
        match self {
            WeaponId::M1915 => "M1915"@,
            WeaponId::M1Garand => "M1 Garand"@,
            WeaponId::Mp40 => "MP40"@,
            WeaponId::Kar98k => "Kar98k"@,
            WeaponId::Stg44 => "STG 44"@,
            WeaponId::Mg42 => "MG42"@,
            WeaponId::Sten => "Sten"@,
            WeaponId::Mg34 => "MG34"@,
            WeaponId::M2Browning => "M2Browning"@,
            WeaponId::Welrod => "Welrod"@,
        }
    }

    /// Convert a raw integer to the enum. Returns `None` for unknown values.
    pub fn from_raw(v: i32) -> (r: Option<Self>)
        ensures
            r is Some <==> 0 <= v <= 9,
            r matches Some(t) ==> t.raw() == v,
    {
        match v {
            0 => Some(WeaponId::M1915),
            1 => Some(WeaponId::M1Garand),
            2 => Some(WeaponId::Mp40),
            3 => Some(WeaponId::Kar98k),
            4 => Some(WeaponId::Stg44),
            5 => Some(WeaponId::Mg42),
            6 => Some(WeaponId::Sten),
            7 => Some(WeaponId::Mg34),
            8 => Some(WeaponId::M2Browning),
            9 => Some(WeaponId::Welrod),
            _ => None,
        }
    }

    /// Human-readable name.
    pub fn name(&self) -> (r: &'static str)
        ensures
            r@ == self.spec_name(),
    {
        match self {
            WeaponId::M1915 => "M1915",
            WeaponId::M1Garand => "M1 Garand",
            WeaponId::Mp40 => "MP40",
            WeaponId::Kar98k => "Kar98k",
            WeaponId::Stg44 => "STG 44",
            WeaponId::Mg42 => "MG42",
            WeaponId::Sten => "Sten",
            WeaponId::Mg34 => "MG34",
            WeaponId::M2Browning => "M2Browning",
            WeaponId::Welrod => "Welrod",
        }
    }
}

/// What kind of match is being played.
///
/// Backs `GameManager.matchType`. Variant names match the C# enum
/// (camelCase), so `name()` round-trips with the host's match-type string.
#[allow(non_camel_case_types)]
#[derive(Debug, Clone, Copy, PartialEq, Eq, Hash, Structural)]
pub enum MatchType {
    teamMatch,
    conquest,
}

impl MatchType {
    /// The match type whose name is `n`, if there is one.
    pub open spec fn spec_from_name(n: Seq<char>) -> Option<MatchType> {
        if n == MatchType::teamMatch.spec_name() {
            Some(MatchType::teamMatch)
        } else if n == MatchType::conquest.spec_name() {
            Some(MatchType::conquest)
        } else {
            None
        }
    }

    /// Parse the host's match-type string (`"teamMatch"` / `"conquest"`).
    /// Anything else, such as `"unknown:N"` or an empty string, gives `None`.
    pub fn from_name(name: &str) -> (r: Option<Self>)
        ensures
            r == Self::spec_from_name(name@),
    {
        if str_eq(name, "teamMatch") {
            Some(MatchType::teamMatch)
        } else if str_eq(name, "conquest") {
            Some(MatchType::conquest)
        } else {
            None
        }
    }

    /// The raw integer the game uses for this variant.
    pub open spec fn raw(self) -> i32 {
        match self {
            MatchType::teamMatch => 0,
            MatchType::conquest => 1,
        }
    }

    /// The human-readable name of this variant.
    pub open spec fn spec_name(self) -> Seq<char> {
        match self {
            MatchType::teamMatch => "teamMatch"@,
            MatchType::conquest => "conquest"@,
        }
    }

    /// Convert a raw integer to the enum. Returns `None` for unknown values.
    pub fn from_raw(v: i32) -> (r: Option<Self>)
        ensures
            r is Some <==> 0 <= v <= 1,
            r matches Some(t) ==> t.raw() == v,
    {
        match v {
            0 => Some(MatchType::teamMatch),
            1 => Some(MatchType::conquest),
            _ => None,
        }
    }

    /// Human-readable name.
    pub fn name(&self) -> (r: &'static str)
        ensures
            r@ == self.spec_name(),
    {
        match self {
            MatchType::teamMatch => "teamMatch",
            MatchType::conquest => "conquest",
        }
    }
}

/// Vehicle category from `VehicleControl.vehicleType`.
#[derive(Debug, Clone, Copy, PartialEq, Eq, Hash, Structural)]
pub enum VehicleType {
    NoVehicle,
    Jeep,
    Tank,
    Airplane,
}

impl VehicleType {
    /// The raw integer the game uses for this variant.
    pub open spec fn raw(self) -> i32 {
        match self {
            VehicleType::NoVehicle => 0,
            VehicleType::Jeep => 1,
            VehicleType::Tank => 2,
            VehicleType::Airplane => 3,
        }
    }

    /// The human-readable name of this variant.
    pub open spec fn spec_name(self) -> Seq<char> {
        match self {
            VehicleType::NoVehicle => "none"@,
            VehicleType::Jeep => "jeep"@,
            VehicleType::Tank => "tank"@,
            VehicleType::Airplane => "airplane"@,
        }
    }

    /// Convert a raw integer to the enum. Returns `None` for unknown values.
    pub fn from_raw(v: i32) -> (r: Option<Self>)
        ensures
            r is Some <==> 0 <= v <= 3,
            r matches Some(t) ==> t.raw() == v,
    {
        match v {
            0 => Some(VehicleType::NoVehicle),
            1 => Some(VehicleType::Jeep),
            2 => Some(VehicleType::Tank),
            3 => Some(VehicleType::Airplane),
            _ => None,
        }
    }

    /// Human-readable name.
    pub fn name(&self) -> (r: &'static str)
        ensures
            r@ == self.spec_name(),
    {
        match self {
            VehicleType::NoVehicle => "none",
            VehicleType::Jeep => "jeep",
            VehicleType::Tank => "tank",
            VehicleType::Airplane => "airplane",
        }
    }
}

/// A player's network role (`PlayerControl.myState`).
#[allow(non_camel_case_types)]
#[derive(Debug, Clone, Copy, PartialEq, Eq, Hash, Structural)]
pub enum UserState {
    client,
    host,
    admin,
    kicked,
    banned,
}

impl UserState {
    /// Whether this role carries server authority (host or admin).
    pub open spec fn spec_is_privileged(self) -> bool {
        self == UserState::host || self == UserState::admin
    }

    /// `true` for the host and for admins.
    pub fn is_privileged(&self) -> (r: bool)
        ensures
            r == self.spec_is_privileged(),
    {
        match self {
            UserState::host | UserState::admin => true,
            _ => false,
        }
    }

    /// The raw integer the game uses for this variant.
    pub open spec fn raw(self) -> i32 {
        match self {
            UserState::client => 0,
            UserState::host => 1,
            UserState::admin => 2,
            UserState::kicked => 3,
            UserState::banned => 4,
        }
    }

    /// The human-readable name of this variant.
    pub open spec fn spec_name(self) -> Seq<char> {
        match self {
            UserState::client => "client"@,
            UserState::host => "host"@,
            UserState::admin => "admin"@,
            UserState::kicked => "kicked"@,
            UserState::banned => "banned"@,
        }
    }

    /// Convert a raw integer to the enum. Returns `None` for unknown values.
    pub fn from_raw(v: i32) -> (r: Option<Self>)
        ensures
            r is Some <==> 0 <= v <= 4,
            r matches Some(t) ==> t.raw() == v,
    {
        match v {
            0 => Some(UserState::client),
            1 => Some(UserState::host),
            2 => Some(UserState::admin),
            3 => Some(UserState::kicked),
            4 => Some(UserState::banned),
            _ => None,
        }
    }

    /// Human-readable name.
    pub fn name(&self) -> (r: &'static str)
        ensures
            r@ == self.spec_name(),
    {
        match self {
            UserState::client => "client",
            UserState::host => "host",
            UserState::admin => "admin",
            UserState::kicked => "kicked",
            UserState::banned => "banned",
        }
    }
}

/// A player's soldier class (`PlayerControl.myClass`).
#[allow(non_camel_case_types)]
#[derive(Debug, Clone, Copy, PartialEq, Eq, Hash, Structural)]
pub enum ClassRole {
    assault,
    medic,
    support,
    scout,
    tanker,
}

impl ClassRole {
    /// The raw integer the game uses for this variant.
    pub open spec fn raw(self) -> i32 {
        match self {
            ClassRole::assault => 0,
            ClassRole::medic => 1,
            ClassRole::support => 2,
            ClassRole::scout => 3,
            ClassRole::tanker => 4,
        }
    }

    /// The human-readable name of this variant.
    pub open spec fn spec_name(self) -> Seq<char> {
        match self {
            ClassRole::assault => "assault"@,
            ClassRole::medic => "medic"@,
            ClassRole::support => "support"@,
            ClassRole::scout => "scout"@,
            ClassRole::tanker => "tanker"@,
        }
    }

    /// Convert a raw integer to the enum. Returns `None` for unknown values.
    pub fn from_raw(v: i32) -> (r: Option<Self>)
        ensures
            r is Some <==> 0 <= v <= 4,
            r matches Some(t) ==> t.raw() == v,
    {
        match v {
            0 => Some(ClassRole::assault),
            1 => Some(ClassRole::medic),
            2 => Some(ClassRole::support),
            3 => Some(ClassRole::scout),
            4 => Some(ClassRole::tanker),
            _ => None,
        }
    }

    /// Human-readable name.
    pub fn name(&self) -> (r: &'static str)
        ensures
            r@ == self.spec_name(),
    {
        match self {
            ClassRole::assault => "assault",
            ClassRole::medic => "medic",
            ClassRole::support => "support",
            ClassRole::scout => "scout",
            ClassRole::tanker => "tanker",
        }
    }
}

/// Every `DamageType` has a raw value that `from_raw` accepts, and no two
/// variants share one: `from_raw` gives back exactly the variant whose raw
/// value it was handed.
pub proof fn lemma_damage_type_raw_roundtrip(t: DamageType)
    ensures
        0 <= t.raw() <= 7,
        forall|u: DamageType| #[trigger] u.raw() == t.raw() ==> u == t,
{
}

/// Every `GadgetId` has a raw value that `from_raw` accepts, and no two
/// variants share one: `from_raw` gives back exactly the variant whose raw
/// value it was handed.
pub proof fn lemma_gadget_id_raw_roundtrip(t: GadgetId)
    ensures
        0 <= t.raw() <= 3,
        forall|u: GadgetId| #[trigger] u.raw() == t.raw() ==> u == t,
{
}

/// Every `WeaponId` has a raw value that `from_raw` accepts, and no two
/// variants share one: `from_raw` gives back exactly the variant whose raw
/// value it was handed.
pub proof fn lemma_weapon_id_raw_roundtrip(t: WeaponId)
    ensures
        0 <= t.raw() <= 9,
        forall|u: WeaponId| #[trigger] u.raw() == t.raw() ==> u == t,
{
}

/// Every `MatchType` has a raw value that `from_raw` accepts, and no two
/// variants share one: `from_raw` gives back exactly the variant whose raw
/// value it was handed.
pub proof fn lemma_match_type_raw_roundtrip(t: MatchType)
    ensures
        0 <= t.raw() <= 1,
        forall|u: MatchType| #[trigger] u.raw() == t.raw() ==> u == t,
{
}

/// Every `VehicleType` has a raw value that `from_raw` accepts, and no two
/// variants share one: `from_raw` gives back exactly the variant whose raw
/// value it was handed.
pub proof fn lemma_vehicle_type_raw_roundtrip(t: VehicleType)
    ensures
        0 <= t.raw() <= 3,
        forall|u: VehicleType| #[trigger] u.raw() == t.raw() ==> u == t,
{
}

/// Every `UserState` has a raw value that `from_raw` accepts, and no two
/// variants share one: `from_raw` gives back exactly the variant whose raw
/// value it was handed.
pub proof fn lemma_user_state_raw_roundtrip(t: UserState)
    ensures
        0 <= t.raw() <= 4,
        forall|u: UserState| #[trigger] u.raw() == t.raw() ==> u == t,
{
}

/// Every `ClassRole` has a raw value that `from_raw` accepts, and no two
/// variants share one: `from_raw` gives back exactly the variant whose raw
/// value it was handed.
pub proof fn lemma_class_role_raw_roundtrip(t: ClassRole)
    ensures
        0 <= t.raw() <= 4,
        forall|u: ClassRole| #[trigger] u.raw() == t.raw() ==> u == t,
{
}

/// A match type's name parses back to that match type, and a name that
/// parses names the match type it gives.
pub proof fn lemma_match_type_name_roundtrip(t: MatchType, n: Seq<char>)
    ensures
        MatchType::spec_from_name(t.spec_name()) == Some(t),
        MatchType::spec_from_name(n) matches Some(u) ==> u.spec_name() == n,
{
    reveal_strlit("teamMatch");
    reveal_strlit("conquest");
    assert(MatchType::teamMatch.spec_name()[0] != MatchType::conquest.spec_name()[0]);
}

} // verus!
