//! The JSON boundary: trusted declarations for the JSON library, and the
//! verified packet decoding built on them.
//!
//! A `serde_json::Value` is opaque here. The trusted items below only move
//! values across the boundary; every decision about the shape of a payload —
//! which fields must exist, what counts as a number, when a packet is dropped
//! — is made by the verified functions in this module.

use crate::decimal::parse_milli;
use crate::models::Avatar;
use crate::models::DamageData;
use crate::models::ErrorData;
use crate::models::KillData;
use crate::models::Packet;
use crate::models::SetupData;
use crate::models::Skill;
use crate::models::SkillData;
use crate::models::TurnBeginData;
use crate::models::TurnData;
use vstd::prelude::*;

verus! {

#[verifier::external_type_specification]
#[verifier::external_body]
pub struct ExValue(serde_json::Value);

/// The byte strings that parse as one JSON document. Which they are is a
/// fixed property of the bytes (the parser's recursion limit is a constant),
/// so the set can carry a name even though stating it would take pages.
pub uninterp spec fn json_parses(bytes: Seq<u8>) -> bool;

/// Relies on serde_json::from_slice: parses a byte buffer as one JSON value.
/// It succeeds on exactly the byte strings forming one well-formed JSON
/// document within the parser's nesting limit — the set `json_parses` names.
#[verifier::external_body]
fn json_from_slice(buf: &[u8]) -> (r: Option<serde_json::Value>)
    ensures
        r is Some <==> json_parses(buf@),
{
    serde_json::from_slice::<serde_json::Value>(buf).ok()
}

/// Relies on serde_json::Value::get: looks a key up when the value is an
/// object, `None` otherwise or when the key is absent.
#[verifier::external_body]
fn json_get<'a>(v: &'a serde_json::Value, key: &str) -> (r: Option<&'a serde_json::Value>) {
    v.get(key)
}

/// Relies on serde_json::Value::as_str: the borrowed string when the value is
/// a JSON string.
pub assume_specification [ serde_json::Value::as_str ](v: &serde_json::Value) -> Option<&str>;

/// Relies on serde_json::Value::as_array: the borrowed elements when the
/// value is a JSON array.
pub assume_specification [ serde_json::Value::as_array ](v: &serde_json::Value) -> Option<
    &Vec<serde_json::Value>,
>;

/// Relies on serde_json::Value's derived Clone: the copy equals the original.
pub assume_specification [ <serde_json::Value as Clone>::clone ](v: &serde_json::Value) -> (r:
    serde_json::Value)
    ensures
        r == *v,
;

/// Relies on serde_json::Number's Display implementation: a non-negative
/// integer prints as plain digits, a finite float in the shortest text that
/// reads back equal. Negative values print with a sign and very large floats
/// with an exponent; the caller rejects both forms.
#[verifier::external_body]
fn json_number_text(v: &serde_json::Value) -> (r: Option<Vec<u8>>) {
    match v {
        serde_json::Value::Number(n) => Some(n.to_string().into_bytes()),
        _ => None,
    }
}

/// An owned copy of a JSON string value.
fn json_string(v: &serde_json::Value) -> Option<String> {
    match v.as_str() {
        Some(s) => Some(s.to_owned()),
        None => None,
    }
}

/// A JSON number as milli-units; `None` for non-numbers and for number text
/// outside the plain-decimal form `crate::decimal` accepts.
fn json_milli(v: &serde_json::Value) -> Option<u64> {
    match json_number_text(v) {
        Some(text) => parse_milli(text.as_slice()),
        None => None,
    }
}

/// Decodes one frame payload into a packet: the envelope must be a JSON
/// object carrying a string `type` and a `data` member. Bytes that are not
/// one JSON document never yield a packet.
pub fn parse_packet(payload: &[u8]) -> (r: Option<Packet>)
    ensures
        !json_parses(payload@) ==> r is None,
{
    let v = match json_from_slice(payload) {
        Some(v) => v,
        None => { return None },
    };
    let kind = match json_get(&v, "type") {
        Some(k) => match json_string(k) {
            Some(s) => s,
            None => { return None },
        },
        None => { return None },
    };
    let data = match json_get(&v, "data") {
        Some(d) => d.clone(),
        None => { return None },
    };
    Some(Packet { kind, data })
}

/// Decodes `{name}` into an avatar.
pub fn parse_avatar(v: &serde_json::Value) -> Option<Avatar> {
    let name = match json_get(v, "name") {
        Some(n) => match json_string(n) {
            Some(s) => s,
            None => { return None },
        },
        None => { return None },
    };
    Some(Avatar { name })
}

/// Decodes a JSON array of `{name}` objects; one malformed element drops the
/// whole list.
pub fn parse_avatars(v: &serde_json::Value) -> Option<Vec<Avatar>> {
    let arr = match v.as_array() {
        Some(a) => a,
        None => { return None },
    };
    let mut out: Vec<Avatar> = Vec::new();
    let mut i: usize = 0;
    while i < arr.len()
        decreases arr@.len() - i,
    {
        match parse_avatar(&arr[i]) {
            Some(a) => out.push(a),
            None => { return None },
        }
        i = i + 1;
    }
    Some(out)
}

/// Decodes a JSON array of numbers into milli-unit figures.
pub fn parse_milli_list(v: &serde_json::Value) -> Option<Vec<u64>> {
    let arr = match v.as_array() {
        Some(a) => a,
        None => { return None },
    };
    let mut out: Vec<u64> = Vec::new();
    let mut i: usize = 0;
    while i < arr.len()
        decreases arr@.len() - i,
    {
        match json_milli(&arr[i]) {
            Some(x) => out.push(x),
            None => { return None },
        }
        i = i + 1;
    }
    Some(out)
}

/// Decodes the `SetBattleLineup` payload.
pub fn parse_setup(v: &serde_json::Value) -> Option<SetupData> {
    let avatars = match json_get(v, "avatars") {
        Some(a) => match parse_avatars(a) {
            Some(list) => list,
            None => { return None },
        },
        None => { return None },
    };
    Some(SetupData { avatars })
}

/// Decodes the `OnDamage` payload.
pub fn parse_damage(v: &serde_json::Value) -> Option<DamageData> {
    let attacker = match json_get(v, "attacker") {
        Some(a) => match parse_avatar(a) {
            Some(av) => av,
            None => { return None },
        },
        None => { return None },
    };
    let damage = match json_get(v, "damage") {
        Some(d) => match json_milli(d) {
            Some(x) => x,
            None => { return None },
        },
        None => { return None },
    };
    Some(DamageData { attacker, damage })
}

/// Decodes the `TurnEnd` payload.
pub fn parse_turn(v: &serde_json::Value) -> Option<TurnData> {
    let avatars = match json_get(v, "avatars") {
        Some(a) => match parse_avatars(a) {
            Some(list) => list,
            None => { return None },
        },
        None => { return None },
    };
    let avatars_damage = match json_get(v, "avatars_damage") {
        Some(d) => match parse_milli_list(d) {
            Some(list) => list,
            None => { return None },
        },
        None => { return None },
    };
    let total_damage = match json_get(v, "total_damage") {
        Some(t) => match json_milli(t) {
            Some(x) => x,
            None => { return None },
        },
        None => { return None },
    };
    Some(TurnData { avatars, avatars_damage, total_damage })
}

/// Decodes the `TurnBegin` payload.
pub fn parse_turn_begin(v: &serde_json::Value) -> Option<TurnBeginData> {
    let action_value = match json_get(v, "action_value") {
        Some(a) => match json_milli(a) {
            Some(x) => x,
            None => { return None },
        },
        None => { return None },
    };
    Some(TurnBeginData { action_value })
}

/// Decodes the `OnKill` payload.
pub fn parse_kill(v: &serde_json::Value) -> Option<KillData> {
    let attacker = match json_get(v, "attacker") {
        Some(a) => match parse_avatar(a) {
            Some(av) => av,
            None => { return None },
        },
        None => { return None },
    };
    Some(KillData { attacker })
}

/// Decodes the `OnUseSkill` payload.
pub fn parse_skill(v: &serde_json::Value) -> Option<SkillData> {
    let avatar = match json_get(v, "avatar") {
        Some(a) => match parse_avatar(a) {
            Some(av) => av,
            None => { return None },
        },
        None => { return None },
    };
    let sv = match json_get(v, "skill") {
        Some(s) => s,
        None => { return None },
    };
    let name = match json_get(sv, "name") {
        Some(n) => match json_string(n) {
            Some(s) => s,
            None => { return None },
        },
        None => { return None },
    };
    let kind = match json_get(sv, "type") {
        Some(k) => match json_string(k) {
            Some(s) => s,
            None => { return None },
        },
        None => { return None },
    };
    Some(SkillData { avatar, skill: Skill { name, kind } })
}

/// Decodes the `Error` payload.
pub fn parse_error(v: &serde_json::Value) -> Option<ErrorData> {
    let msg = match json_get(v, "msg") {
        Some(m) => match json_string(m) {
            Some(s) => s,
            None => { return None },
        },
        None => { return None },
    };
    Some(ErrorData { msg })
}

} // verus!
