//! Field identifiers for `PlayerControl`.
//!
//! The framework and plugins share these `u32` ids, so the host needs only
//! one generic reader per primitive shape, however many fields exist.

#![allow(non_upper_case_globals)]

use vstd::prelude::*;

verus! {

/// `PlayerControl` field identifier. The value is opaque: only the
/// framework and the SDK need to agree on it.
pub type PlayerField = u32;

// Identity / network
pub const F_PLAYER_ID: PlayerField = 0x0001;
pub const F_DEVICE_ID: PlayerField = 0x0002;
pub const F_TEAM: PlayerField = 0x0003;
pub const F_GROUND_TYPE: PlayerField = 0x0004;

// Lifecycle / state
pub const F_HEALTH: PlayerField = 0x0100;
pub const F_HEALTH_REGEN_COOLDOWN: PlayerField = 0x0101;
pub const F_DEAD: PlayerField = 0x0102;
pub const F_READY: PlayerField = 0x0103;
pub const F_RESPAWN_TIMER: PlayerField = 0x0104;
pub const F_DONE_LOADING_MAP: PlayerField = 0x0105;
pub const F_USER_STATE: PlayerField = 0x0106;
pub const F_CLASS_ROLE: PlayerField = 0x0107;

// Stats / counters
pub const F_KILL_COUNT: PlayerField = 0x0200;
pub const F_DEATH_COUNT: PlayerField = 0x0201;
pub const F_BULLETS_FIRED: PlayerField = 0x0202;
pub const F_GRENADES_THROWN: PlayerField = 0x0203;
pub const F_RELOADS_DONE: PlayerField = 0x0204;
pub const F_KILL_RATE: PlayerField = 0x0205;
pub const F_DAMAGE_RATE: PlayerField = 0x0206;
pub const F_NETWORK_RATE: PlayerField = 0x0207;
pub const F_LATENCY_RATE: PlayerField = 0x0208;
pub const F_PING_WARN: PlayerField = 0x0209;
pub const F_TEAMKILL_WARN: PlayerField = 0x020A;

// Movement / pose
pub const F_PLAYER_SPEED: PlayerField = 0x0300;
pub const F_RUNNING: PlayerField = 0x0301;
pub const F_GROUNDED: PlayerField = 0x0302;
pub const F_CROUCH: PlayerField = 0x0303;
pub const F_IS_UNDER_WATER: PlayerField = 0x0304;
pub const F_LAST_PLAYER_POS: PlayerField = 0x0305;
pub const F_MY_RIGID_VEL: PlayerField = 0x0306;
pub const F_MOVE_DIR: PlayerField = 0x0307;
pub const F_LOOK_DIR: PlayerField = 0x0308;

// Replicated transform
pub const F_NET_POSITION: PlayerField = 0x0310;
pub const F_NET_VELOCITY: PlayerField = 0x0311;

// Combat
pub const F_WEAPON_ID: PlayerField = 0x0320;

// Combat-adjacent
pub const F_TRYING_TO_ATTACK: PlayerField = 0x0400;
pub const F_OBSTACLE_TIMER: PlayerField = 0x0401;
pub const F_EXPOSE_TIMER: PlayerField = 0x0402;
pub const F_DONT_EXPOSE: PlayerField = 0x0403;

// Input / camera
pub const F_MOUSE_X: PlayerField = 0x0500;
pub const F_MOUSE_Y: PlayerField = 0x0501;
pub const F_INPUT_X: PlayerField = 0x0502;
pub const F_INPUT_Y: PlayerField = 0x0503;
pub const F_AUTO_SPRINT: PlayerField = 0x0504;
pub const F_HEAD_BOB: PlayerField = 0x0505;
pub const F_JOYSTICK_LEAN: PlayerField = 0x0506;
pub const F_CAM_SENSITIVITY: PlayerField = 0x0507;
pub const F_ADS_SENSITIVITY: PlayerField = 0x0508;
pub const F_GYRO_LOOK_SENSITIVITY: PlayerField = 0x0509;
pub const F_GYRO_ADS_SENSITIVITY: PlayerField = 0x050A;
pub const F_LOCAL_CAM_DIST: PlayerField = 0x050B;
pub const F_CAM_FOV: PlayerField = 0x050C;
pub const F_CAM_SHAKE: PlayerField = 0x050D;
pub const F_DEFAULT_LOD_BIAS: PlayerField = 0x050E;

// Network / latency
pub const F_MY_LATENCY: PlayerField = 0x0600;

// Voting
pub const F_VOTE_KICKED: PlayerField = 0x0700;
pub const F_VOTED: PlayerField = 0x0701;

} // verus!
