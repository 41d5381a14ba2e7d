use veritas_core::json::{
    parse_damage, parse_error, parse_kill, parse_packet, parse_setup, parse_skill, parse_turn,
    parse_turn_begin,
};

fn value(text: &str) -> serde_json::Value {
    serde_json::from_str(text).expect("test literal must be valid JSON")
}

#[test]
fn packet_envelope_decodes_type_and_data() {
    let p = parse_packet(br#"{"type":"OnDamage","data":{"x":1}}"#).unwrap();
    assert_eq!(p.kind, "OnDamage");
    assert_eq!(p.data, value(r#"{"x":1}"#));
}

#[test]
fn packet_envelope_requires_both_members() {
    assert!(parse_packet(br#"{"type":"OnDamage"}"#).is_none());
    assert!(parse_packet(br#"{"data":{}}"#).is_none());
    assert!(parse_packet(br#"{"type":5,"data":{}}"#).is_none());
    assert!(parse_packet(br#"not json"#).is_none());
    assert!(parse_packet(br#"[1,2]"#).is_none());
}

#[test]
fn damage_payload_decodes_with_float_number_text() {
    let d = parse_damage(&value(r#"{"attacker":{"name":"Seele"},"damage":100.0}"#)).unwrap();
    assert_eq!(d.attacker.name, "Seele");
    assert_eq!(d.damage, 100_000);

    let d = parse_damage(&value(r#"{"attacker":{"name":"March"},"damage":1234.56}"#)).unwrap();
    assert_eq!(d.damage, 1_234_560);

    let d = parse_damage(&value(r#"{"attacker":{"name":"March"},"damage":42}"#)).unwrap();
    assert_eq!(d.damage, 42_000);
}

#[test]
fn malformed_damage_payload_is_dropped() {
    assert!(parse_damage(&value(r#"{"bogus":true}"#)).is_none());
    assert!(parse_damage(&value(r#"{"attacker":{"name":"A"}}"#)).is_none());
    assert!(parse_damage(&value(r#"{"attacker":{},"damage":1}"#)).is_none());
    assert!(parse_damage(&value(r#"{"attacker":{"name":"A"},"damage":"much"}"#)).is_none());
    assert!(parse_damage(&value(r#"{"attacker":{"name":"A"},"damage":-5}"#)).is_none());
    assert!(parse_damage(&value(r#"[]"#)).is_none());
}

#[test]
fn setup_payload_decodes_the_roster_in_order() {
    let s = parse_setup(&value(r#"{"avatars":[{"name":"A"},{"name":"B"}]}"#)).unwrap();
    let names: Vec<&str> = s.avatars.iter().map(|a| a.name.as_str()).collect();
    assert_eq!(names, vec!["A", "B"]);
    assert!(parse_setup(&value(r#"{"avatars":[{"name":"A"},{}]}"#)).is_none());
    assert!(parse_setup(&value(r#"{}"#)).is_none());
}

#[test]
fn turn_payload_decodes_names_damage_and_total() {
    let t = parse_turn(&value(
        r#"{"avatars":[{"name":"A"},{"name":"B"}],"avatars_damage":[100.0,0.0],"total_damage":100.0}"#,
    ))
    .unwrap();
    assert_eq!(t.avatars.len(), 2);
    assert_eq!(t.avatars_damage, vec![100_000, 0]);
    assert_eq!(t.total_damage, 100_000);
    assert!(parse_turn(&value(r#"{"avatars":[],"avatars_damage":["x"],"total_damage":0}"#)).is_none());
}

#[test]
fn turn_begin_payload_decodes_the_action_value() {
    let tb = parse_turn_begin(&value(r#"{"action_value":150.5}"#)).unwrap();
    assert_eq!(tb.action_value, 150_500);
    assert!(parse_turn_begin(&value(r#"{}"#)).is_none());
}

#[test]
fn kill_skill_and_error_payloads_decode() {
    let k = parse_kill(&value(r#"{"attacker":{"name":"Himeko"}}"#)).unwrap();
    assert_eq!(k.attacker.name, "Himeko");

    let s = parse_skill(&value(
        r#"{"avatar":{"name":"Welt"},"skill":{"name":"Gravity","type":"Ultimate"}}"#,
    ))
    .unwrap();
    assert_eq!(s.avatar.name, "Welt");
    assert_eq!(s.skill.name, "Gravity");
    assert_eq!(s.skill.kind, "Ultimate");

    let e = parse_error(&value(r#"{"msg":"boom"}"#)).unwrap();
    assert_eq!(e.msg, "boom");
    assert!(parse_error(&value(r#"{"msg":5}"#)).is_none());
}
