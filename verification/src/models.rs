//! Typed shapes of the inbound event packets.
//!
//! Every packet on the wire is a JSON envelope `{"type": ..., "data": ...}`.
//! The `data` value is decoded per packet type into one of the structures
//! here; damage and action-value figures are held in milli-units (see
//! `crate::decimal`). A `data` value that does not match the expected shape
//! for its type is dropped by the dispatcher, never an error.

use vstd::prelude::*;

verus! {

/// A playable character taking part in the battle.
#[derive(Debug, Clone)]
pub struct Avatar {
    pub name: String,
}

/// A skill used by an avatar. `kind` is the skill category string.
#[derive(Debug, Clone)]
pub struct Skill {
    pub name: String,
    pub kind: String,
}

/// Payload of `OnUseSkill`.
#[derive(Debug, Clone)]
pub struct SkillData {
    pub avatar: Avatar,
    pub skill: Skill,
}

/// Payload of `Error`.
#[derive(Debug, Clone)]
pub struct ErrorData {
    pub msg: String,
}

/// Payload of `OnDamage`; `damage` is in milli-units.
#[derive(Debug, Clone)]
pub struct DamageData {
    pub attacker: Avatar,
    pub damage: u64,
}

/// Payload of `OnTurnEnd`; damage figures are in milli-units.
#[derive(Debug, Clone)]
pub struct TurnData {
    pub avatars: Vec<Avatar>,
    pub avatars_damage: Vec<u64>,
    pub total_damage: u64,
}

/// Payload of `OnTurnBegin`; the action-value cursor in milli-units.
#[derive(Debug, Clone)]
pub struct TurnBeginData {
    pub action_value: u64,
}

/// Payload of `OnKill`.
#[derive(Debug)]
pub struct KillData {
    pub attacker: Avatar,
}

/// Payload of `OnSetBattleLineup`.
#[derive(Debug)]
pub struct SetupData {
    pub avatars: Vec<Avatar>,
}

/// One decoded envelope: the discriminating type tag and the still-undecoded
/// payload value.
#[derive(Debug)]
pub struct Packet {
    pub kind: String,
    pub data: serde_json::Value,
}

} // verus!
