use veritas_core::codec::encode_frame;
use veritas_core::conn::{process_payload, should_forward};
use veritas_core::dispatch::{CsvAction, PacketHandler};
use veritas_core::json::parse_packet;
use veritas_core::logger::MessageLogger;
use veritas_core::models::Packet;
use veritas_core::store::DataBufferInner;

fn packet(kind: &str, data: &str) -> Packet {
    Packet { kind: kind.to_string(), data: serde_json::from_str(data).unwrap() }
}

fn fresh() -> (PacketHandler, MessageLogger, DataBufferInner) {
    (PacketHandler::new(), MessageLogger::default(), DataBufferInner::default())
}

#[test]
fn heartbeats_never_reach_the_queue() {
    let hb = packet("Heartbeat", r#"{}"#);
    assert!(!should_forward(&hb));
    assert!(should_forward(&packet("OnDamage", r#"{}"#)));
    assert!(should_forward(&packet("SomethingElse", r#"{}"#)));

    let frame = encode_frame(br#"{"type":"Heartbeat","data":{}}"#);
    let payload = &frame[4..];
    assert!(process_payload(payload).is_none());

    let frame = encode_frame(br#"{"type":"OnKill","data":{"attacker":{"name":"A"}}}"#);
    let forwarded = process_payload(&frame[4..]).unwrap();
    assert_eq!(forwarded.kind, "OnKill");
}

#[test]
fn end_to_end_battle_scenario() {
    let (mut h, mut log, mut buf) = fresh();

    let (changed, action) = h.handle_packets(
        Some(parse_packet(br#"{"type":"SetBattleLineup","data":{"avatars":[{"name":"A"},{"name":"B"}]}}"#).unwrap()),
        &mut log,
        &mut buf,
    );
    assert!(changed);
    match action {
        Some(CsvAction::Create { header }) => assert_eq!(header, vec!["A", "B"]),
        other => panic!("expected a Create order, got {:?}", other.is_some()),
    }

    let (changed, action) = h.handle_packets(
        Some(parse_packet(br#"{"type":"OnDamage","data":{"attacker":{"name":"A"},"damage":100}}"#).unwrap()),
        &mut log,
        &mut buf,
    );
    assert!(changed);
    match action {
        Some(CsvAction::Append { row }) => assert_eq!(row, vec![100_000, 0]),
        _ => panic!("expected an Append order"),
    }

    let (changed, action) = h.handle_packets(
        Some(parse_packet(br#"{"type":"TurnEnd","data":{"avatars":[{"name":"A"},{"name":"B"}],"avatars_damage":[100.0,0.0],"total_damage":100.0}}"#).unwrap()),
        &mut log,
        &mut buf,
    );
    assert!(changed);
    assert!(action.is_none());

    let (changed, action) = h.handle_packets(
        Some(parse_packet(br#"{"type":"OnBattleEnd","data":{}}"#).unwrap()),
        &mut log,
        &mut buf,
    );
    assert!(changed);
    assert!(matches!(action, Some(CsvAction::Close)));

    assert_eq!(buf.column_names, vec!["A", "B"]);
    assert_eq!(buf.total_damage, vec![100_000, 0]);
    assert_eq!(buf.turn_damage, vec![vec![100_000, 0]]);
    assert!(!h.csv_open);

    // with the session closed, further damage is recorded but no row is ordered
    let (changed, action) = h.handle_packets(
        Some(packet("OnDamage", r#"{"attacker":{"name":"A"},"damage":5}"#)),
        &mut log,
        &mut buf,
    );
    assert!(changed);
    assert!(action.is_none());
    assert_eq!(buf.total_damage, vec![105_000, 0]);
}

#[test]
fn malformed_payload_changes_nothing_and_the_stream_goes_on() {
    let (mut h, mut log, mut buf) = fresh();
    h.handle_packets(
        Some(packet("SetBattleLineup", r#"{"avatars":[{"name":"A"}]}"#)),
        &mut log,
        &mut buf,
    );
    let before_totals = buf.total_damage.clone();
    let before_rows = buf.rows.len();

    let (changed, action) = h.handle_packets(
        Some(packet("OnDamage", r#"{"bogus":true}"#)),
        &mut log,
        &mut buf,
    );
    // the type is recognized, so a redraw may be signalled, but no state moved
    assert!(changed);
    assert!(action.is_none());
    assert_eq!(buf.total_damage, before_totals);
    assert_eq!(buf.rows.len(), before_rows);

    // a well-formed packet right after is processed normally
    let (_, action) = h.handle_packets(
        Some(packet("OnDamage", r#"{"attacker":{"name":"A"},"damage":7}"#)),
        &mut log,
        &mut buf,
    );
    assert!(matches!(action, Some(CsvAction::Append { .. })));
    assert_eq!(buf.total_damage, vec![7_000]);
}

#[test]
fn unknown_types_are_logged_and_change_nothing() {
    let (mut h, mut log, mut buf) = fresh();
    let (changed, action) = h.handle_packets(
        Some(packet("OnUpdateWave", r#"{}"#)),
        &mut log,
        &mut buf,
    );
    assert!(!changed);
    assert!(action.is_none());
    assert!(log.get_text().contains("Unknown packet type: OnUpdateWave"));
}

#[test]
fn an_empty_poll_is_a_no_op() {
    let (mut h, mut log, mut buf) = fresh();
    let (changed, action) = h.handle_packets(None, &mut log, &mut buf);
    assert!(!changed);
    assert!(action.is_none());
    assert_eq!(log.get_text(), "");
}

#[test]
fn turn_begin_moves_the_cursor_and_log_only_types_log() {
    let (mut h, mut log, mut buf) = fresh();
    h.handle_packets(Some(packet("BattleBegin", r#"{}"#)), &mut log, &mut buf);
    h.handle_packets(Some(packet("TurnBegin", r#"{"action_value":150.5}"#)), &mut log, &mut buf);
    assert_eq!(buf.current_av, 150_500);
    h.handle_packets(Some(packet("OnKill", r#"{"attacker":{"name":"A"}}"#)), &mut log, &mut buf);
    h.handle_packets(
        Some(packet("OnUseSkill", r#"{"avatar":{"name":"A"},"skill":{"name":"S","type":"Basic"}}"#)),
        &mut log,
        &mut buf,
    );
    h.handle_packets(Some(packet("Error", r#"{"msg":"agent hiccup"}"#)), &mut log, &mut buf);
    let text = log.get_text();
    assert!(text.contains("Battle started"));
    assert!(text.contains("Turn begin - AV: 150.500"));
    assert!(text.contains("A has killed"));
    assert!(text.contains("A used [Basic] S"));
    assert!(text.contains("agent hiccup"));
}

#[test]
fn damage_from_outside_the_roster_orders_no_row() {
    let (mut h, mut log, mut buf) = fresh();
    h.handle_packets(
        Some(packet("SetBattleLineup", r#"{"avatars":[{"name":"A"}]}"#)),
        &mut log,
        &mut buf,
    );
    let (changed, action) = h.handle_packets(
        Some(packet("OnDamage", r#"{"attacker":{"name":"Enemy"},"damage":50}"#)),
        &mut log,
        &mut buf,
    );
    assert!(changed);
    assert!(action.is_none());
    assert_eq!(buf.total_damage, vec![0]);
    assert_eq!(buf.column_names, vec!["A"]);
}
