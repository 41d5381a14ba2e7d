use veritas_core::store::DataBufferInner;

fn roster(names: &[&str]) -> Vec<String> {
    names.iter().map(|n| n.to_string()).collect()
}

#[test]
fn lineup_resets_every_series() {
    let mut b = DataBufferInner::default();
    b.init_characters(&roster(&["A", "B"]));
    b.accrue_damage(&"A".to_string(), 5_000);
    b.current_av = 77;
    b.close_turn();
    b.init_characters(&roster(&["C"]));
    assert_eq!(b.column_names, vec!["C".to_string()]);
    assert_eq!(b.total_damage, vec![0]);
    assert_eq!(b.current_turn, vec![0]);
    assert!(b.rows.is_empty());
    assert!(b.turn_damage.is_empty());
    assert!(b.av_history.is_empty());
    assert!(b.av_damage.is_empty());
    assert!(b.dpav_history.is_empty());
    assert_eq!(b.current_av, 0);
    assert_eq!(b.total_dpav, 0);
    assert!(b.turn_open);
}

#[test]
fn damage_accrues_exactly_and_unknown_names_add_no_columns() {
    let mut b = DataBufferInner::default();
    b.init_characters(&roster(&["A", "B"]));
    let row = b.accrue_damage(&"A".to_string(), 100_000);
    assert_eq!(row, Some(vec![100_000, 0]));
    let row = b.accrue_damage(&"B".to_string(), 25_000);
    assert_eq!(row, Some(vec![0, 25_000]));
    let row = b.accrue_damage(&"A".to_string(), 1_500);
    assert_eq!(row, Some(vec![1_500, 0]));
    // a name outside the roster accrues nowhere and creates no column
    let row = b.accrue_damage(&"Stranger".to_string(), 9_999);
    assert_eq!(row, None);
    assert_eq!(b.column_names, roster(&["A", "B"]));
    assert_eq!(b.total_damage, vec![101_500, 25_000]);
    assert_eq!(b.current_turn, vec![101_500, 25_000]);
    // every event left a full-width row, the unknown attacker an all-zero one
    assert_eq!(b.rows.len(), 4);
    assert_eq!(b.rows[3], vec![0, 0]);
}

#[test]
fn turn_close_snapshots_and_resets_the_bucket() {
    let mut b = DataBufferInner::default();
    b.init_characters(&roster(&["A", "B"]));
    b.accrue_damage(&"A".to_string(), 40_000);
    b.accrue_damage(&"B".to_string(), 2_000);
    let turns_before = b.turn_damage.len();
    let snapshot = b.current_turn.clone();
    b.close_turn();
    assert_eq!(b.turn_damage.len(), turns_before + 1);
    assert_eq!(b.turn_damage.last().unwrap(), &snapshot);
    assert_eq!(b.current_turn, vec![0, 0]);
    assert!(!b.turn_open);
    // totals survive the turn boundary
    assert_eq!(b.total_damage, vec![40_000, 2_000]);
}

#[test]
fn battle_end_flushes_a_touched_bucket_and_clears_it() {
    let mut b = DataBufferInner::default();
    b.init_characters(&roster(&["A"]));
    b.accrue_damage(&"A".to_string(), 10_000);
    b.flush_final_turn();
    assert_eq!(b.turn_damage.len(), 1);
    assert_eq!(b.turn_damage[0], vec![10_000]);
    // the bucket is cleared by the flush
    assert_eq!(b.current_turn, vec![0]);
    assert!(!b.turn_open);
}

#[test]
fn a_repeated_battle_end_flushes_nothing_more() {
    let mut b = DataBufferInner::default();
    b.init_characters(&roster(&["A"]));
    b.accrue_damage(&"A".to_string(), 10_000);
    b.flush_final_turn();
    b.flush_final_turn();
    assert_eq!(b.turn_damage.len(), 1);
}

#[test]
fn an_empty_roster_leaves_nothing_to_flush() {
    let mut b = DataBufferInner::default();
    b.init_characters(&roster(&[]));
    assert!(!b.turn_open);
    b.flush_final_turn();
    assert!(b.turn_damage.is_empty());
}

#[test]
fn battle_end_after_a_closed_turn_flushes_nothing() {
    let mut b = DataBufferInner::default();
    b.init_characters(&roster(&["A"]));
    b.accrue_damage(&"A".to_string(), 10_000);
    b.close_turn();
    let turns = b.turn_damage.len();
    b.flush_final_turn();
    assert_eq!(b.turn_damage.len(), turns);
}

#[test]
fn same_action_value_turns_merge_into_one_window() {
    let mut b = DataBufferInner::default();
    b.init_characters(&roster(&["A", "B"]));
    b.current_av = 150_500;
    b.accrue_damage(&"A".to_string(), 100_000);
    b.close_turn();
    b.accrue_damage(&"B".to_string(), 30_000);
    b.close_turn();
    assert_eq!(b.av_history, vec![150_500]);
    assert_eq!(b.av_damage.len(), 1);
    assert_eq!(b.av_damage[0], vec![100_000, 30_000]);
    // turn history still records the two turns separately
    assert_eq!(b.turn_damage.len(), 2);
}

#[test]
fn a_new_action_value_opens_a_new_window() {
    let mut b = DataBufferInner::default();
    b.init_characters(&roster(&["A"]));
    b.current_av = 100_000;
    b.accrue_damage(&"A".to_string(), 1_000);
    b.close_turn();
    b.current_av = 120_000;
    b.accrue_damage(&"A".to_string(), 2_000);
    b.close_turn();
    assert_eq!(b.av_history, vec![100_000, 120_000]);
    assert_eq!(b.av_damage, vec![vec![1_000], vec![2_000]]);
}

#[test]
fn dpav_is_total_damage_scaled_by_the_cursor() {
    let mut b = DataBufferInner::default();
    b.init_characters(&roster(&["A", "B"]));
    b.accrue_damage(&"A".to_string(), 100_000);
    b.accrue_damage(&"B".to_string(), 50_000);
    // damage 150 at action value 3: 50 damage per action value
    b.update_dpav(3_000);
    assert_eq!(b.total_dpav, 50_000);
    assert_eq!(b.dpav_history, vec![50_000]);
    // a zero cursor recomputes nothing
    b.update_dpav(0);
    assert_eq!(b.dpav_history, vec![50_000]);
}

#[test]
fn accrual_saturates_instead_of_wrapping() {
    let mut b = DataBufferInner::default();
    b.init_characters(&roster(&["A"]));
    b.accrue_damage(&"A".to_string(), u64::MAX);
    b.accrue_damage(&"A".to_string(), 10);
    assert_eq!(b.total_damage, vec![u64::MAX]);
}
