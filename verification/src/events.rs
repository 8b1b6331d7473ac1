//! Event payloads passed from framework collectors to plugins.
//!
//! Interceptable events carry mutable fields: a plugin may rewrite them
//! before the framework forwards the original call.

use vstd::prelude::*;

use crate::game_enums::{DamageType, GadgetId, WeaponId};

verus! {

/// Opaque reference to a player instance: a lightweight key, stable for
/// the current session, usable as a map key for cross-event tracking.
pub type PlayerRef = u64;

/// Fired the first time the framework sees a given player, and again when
/// that player renames themselves.
#[derive(Debug, Clone)]
pub struct PlayerJoinEvent {
    /// Stable key for this player during the current session.
    pub player: PlayerRef,
    /// The name just announced. May be empty if the incoming string was
    /// null or failed to decode.
    pub name: String,
}

/// A player dealt damage to another entity. **Interceptable.**
#[derive(Debug, Clone)]
pub struct DamageEvent {
    /// The player who initiated the damage; `0` when the damage came from a
    /// non-player source.
    pub attacker: PlayerRef,
    /// The target's network id; `0` when the target is an NPC or could not
    /// be resolved.
    pub victim: PlayerRef,
    /// Damage amount.
    pub amount: i32,
    /// Raw damage type (see [`DamageType`]).
    pub damage_type: i32,
    /// Raw weapon or gadget identifier.
    pub weapon_id: i32,
    /// `true` if the target is an NPC.
    pub is_npc: bool,
    /// Extra data string attached to the call. May be empty.
    pub data: String,
    /// Monotonic frame counter, `0` if not yet wired.
    pub frame: u64,
}

impl DamageEvent {
    /// Typed damage type. `None` if the game sent an unknown value.
    pub fn damage_type_enum(&self) -> (r: Option<DamageType>)
        ensures
            r is Some <==> 0 <= self.damage_type <= 7,
            r matches Some(t) ==> t.raw() == self.damage_type,
    {
        DamageType::from_raw(self.damage_type)
    }

    /// Typed weapon id (primary/secondary firearms). `None` if unknown.
    pub fn weapon_enum(&self) -> (r: Option<WeaponId>)
        ensures
            r is Some <==> 0 <= self.weapon_id <= 9,
            r matches Some(t) ==> t.raw() == self.weapon_id,
    {
        WeaponId::from_raw(self.weapon_id)
    }

    /// Typed gadget id (equipment slot), read from the same raw
    /// `weapon_id`. `None` if unknown.
    pub fn gadget_enum(&self) -> (r: Option<GadgetId>)
        ensures
            r is Some <==> 0 <= self.weapon_id <= 3,
            r matches Some(t) ==> t.raw() == self.weapon_id,
    {
        GadgetId::from_raw(self.weapon_id)
    }
}

/// Low-frequency tick, for periodic housekeeping.
#[derive(Debug, Clone)]
pub struct TickEvent {
    pub frame: u64,
}

/// Fires right after a new game/match begins. **Notification only.**
/// `frame` is the tick counter at emit time (`0` before ticks start).
#[derive(Debug, Clone)]
pub struct GameStartEvent {
    pub frame: u64,
}

/// A player sent a chat message. **Interceptable**: the plugin may rewrite
/// `message` before it is forwarded.
#[derive(Debug, Clone)]
pub struct ChatEvent {
    /// The player who sent the message.
    pub sender: PlayerRef,
    /// The chat message content; the final value is what gets forwarded.
    pub message: String,
}

/// A player respawned. **Interceptable.**
#[derive(Debug, Clone)]
pub struct RespawnEvent {
    pub player: PlayerRef,
    /// Spawn data string. **Mutable.**
    pub spawn_data: String,
    /// Vehicle type id.
    pub vehicle_type: u32,
}

/// A player threw a grenade. **Interceptable.**
#[derive(Debug, Clone)]
pub struct GrenadeEvent {
    pub player: PlayerRef,
    /// Grenade data string. **Mutable.**
    pub grenade_data: String,
}

/// A player fired their weapon. **Interceptable.**
#[derive(Debug, Clone)]
pub struct ShootEvent {
    pub player: PlayerRef,
    /// Weapon type id.
    pub weapon_type: u8,
    /// Shoot data string (trajectory / target info). **Mutable.**
    pub shoot_data: String,
}

impl ShootEvent {
    /// Typed weapon id (primary/secondary firearms). `None` if unknown.
    pub fn weapon_enum(&self) -> (r: Option<WeaponId>)
        ensures
            r is Some <==> self.weapon_type <= 9,
            r matches Some(t) ==> t.raw() == self.weapon_type,
    {
        WeaponId::from_raw(self.weapon_type as i32)
    }
}

/// A player started reloading. **Notification only.**
#[derive(Debug, Clone)]
pub struct ReloadEvent {
    pub player: PlayerRef,
    /// The full animation name (e.g. `"Reloading"`, `"ReloadingBolt"`).
    pub anim_name: String,
}

/// A player fired a vehicle weapon. **Interceptable.**
#[derive(Debug, Clone)]
pub struct VehicleShootEvent {
    pub player: PlayerRef,
    /// Reference to the vehicle instance.
    pub vehicle: PlayerRef,
    /// The vehicle's network id.
    pub vehicle_id: u32,
    /// The seat the shooter occupies (0 = driver, 1+ = gunner seats).
    pub seat_id: i32,
}

/// A vehicle is being repaired. **Interceptable.**
#[derive(Debug, Clone)]
pub struct VehicleRepairEvent {
    pub player: PlayerRef,
    /// The vehicle's network id.
    pub vehicle_id: u32,
    /// Repair timer value.
    pub timer: i32,
    /// Health value after repair.
    pub health: i32,
}

} // verus!
