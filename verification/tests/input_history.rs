use boxman::input::{InputHistory, PlayerInput, INPUT_WINDOW};
use boxman::scalar::{Scalar, Vector2, Vector3};

fn s(value: f32) -> Scalar {
    Scalar { bits: value.to_bits() }
}

fn v(x: f32, y: f32, z: f32) -> Vector3 {
    Vector3 { x: s(x), y: s(y), z: s(z) }
}

fn forward() -> Vector2 {
    Vector2 { x: s(0.0), y: s(-1.0) }
}

fn capture(history: &mut InputHistory, snapshot_id: Option<u64>) -> u32 {
    assert!(history.next_input_id() < u32::MAX);
    history.capture(snapshot_id, s(0.5), forward(), false, s(1.25))
}

#[test]
fn new_history_is_empty_and_starts_at_zero() {
    let history = InputHistory::new();
    assert_eq!(history.len(), 0);
    assert_eq!(history.next_input_id(), 0);
    assert_eq!(history.latest(), None);
    assert_eq!(history.get(0), None);
}

#[test]
fn capture_hands_out_increasing_ids_from_zero() {
    let mut history = InputHistory::new();
    for expected in 0..10u32 {
        assert_eq!(capture(&mut history, None), expected);
    }
    assert_eq!(history.next_input_id(), 10);
    let ids: Vec<u32> = history.inputs().iter().map(|input| input.id).collect();
    assert_eq!(ids, vec![0, 1, 2, 3, 4, 5, 6, 7, 8, 9]);
}

#[test]
fn captured_sample_is_fresh() {
    let mut history = InputHistory::new();
    let id = history.capture(Some(17), s(0.5), forward(), true, s(2.0));
    assert_eq!(
        history.latest(),
        Some(PlayerInput {
            id,
            snapshot_id: Some(17),
            yaw: s(0.5),
            wish_dir: forward(),
            wish_jump: true,
            timestamp: s(2.0),
            send_count: 0,
            post_move_velocity: v(0.0, 0.0, 0.0),
            post_move_position: v(0.0, 0.0, 0.0),
            post_move_grounded: false,
        })
    );
}

#[test]
fn sample_without_snapshot_has_no_ack_cursor() {
    let mut history = InputHistory::new();
    capture(&mut history, None);
    assert_eq!(history.latest().map(|input| input.snapshot_id), Some(None));
}

#[test]
fn history_holds_at_most_the_window() {
    let mut history = InputHistory::new();
    for _ in 0..INPUT_WINDOW {
        capture(&mut history, None);
    }
    assert_eq!(history.len(), 64);
    assert_eq!(history.get(0).map(|input| input.id), Some(0));
    capture(&mut history, None);
    assert_eq!(history.len(), 64);
    assert_eq!(history.get(0).map(|input| input.id), Some(1));
    assert_eq!(history.latest().map(|input| input.id), Some(64));
    for _ in 0..100 {
        capture(&mut history, None);
    }
    assert_eq!(history.len(), 64);
    assert_eq!(history.get(0).map(|input| input.id), Some(101));
    assert_eq!(history.latest().map(|input| input.id), Some(164));
}

#[test]
fn post_move_fills_the_newest_sample_only() {
    let mut history = InputHistory::new();
    capture(&mut history, None);
    capture(&mut history, None);
    history.record_post_move(v(1.0, 2.0, 3.0), v(4.0, 5.0, 6.0), true);
    let older = history.get(0).expect("two samples");
    let newest = history.get(1).expect("two samples");
    assert_eq!(older.post_move_position, v(0.0, 0.0, 0.0));
    assert!(!older.post_move_grounded);
    assert_eq!(newest.post_move_velocity, v(1.0, 2.0, 3.0));
    assert_eq!(newest.post_move_position, v(4.0, 5.0, 6.0));
    assert!(newest.post_move_grounded);
    assert_eq!(newest.id, 1);
}

#[test]
fn post_move_on_empty_history_changes_nothing() {
    let mut history = InputHistory::new();
    history.record_post_move(v(1.0, 2.0, 3.0), v(4.0, 5.0, 6.0), true);
    assert_eq!(history.len(), 0);
    assert_eq!(history.next_input_id(), 0);
}

#[test]
fn overwrite_replaces_the_outcome_at_an_index() {
    let mut history = InputHistory::new();
    for _ in 0..3 {
        capture(&mut history, None);
    }
    history.overwrite_post_move(1, v(9.0, 9.0, 9.0), v(8.0, 8.0, 8.0), true);
    assert_eq!(history.get(1).map(|input| input.post_move_position), Some(v(8.0, 8.0, 8.0)));
    assert_eq!(history.get(0).map(|input| input.post_move_position), Some(v(0.0, 0.0, 0.0)));
    assert_eq!(history.get(2).map(|input| input.post_move_position), Some(v(0.0, 0.0, 0.0)));
    history.overwrite_post_move(3, v(1.0, 1.0, 1.0), v(1.0, 1.0, 1.0), true);
    assert_eq!(history.len(), 3);
}

#[test]
fn find_locates_retained_inputs_only() {
    let mut history = InputHistory::new();
    for _ in 0..70 {
        capture(&mut history, None);
    }
    assert_eq!(history.find(5), None);
    assert_eq!(history.find(6), Some(0));
    assert_eq!(history.find(69), Some(63));
    assert_eq!(history.find(70), None);
}

#[test]
fn unsent_inputs_are_sent_once() {
    let mut history = InputHistory::new();
    capture(&mut history, None);
    capture(&mut history, None);
    let waiting: Vec<u32> = history.unsent().iter().map(|input| input.id).collect();
    assert_eq!(waiting, vec![0, 1]);
    assert!(history.mark_sent(0));
    assert_eq!(history.get(0).map(|input| input.send_count), Some(1));
    let waiting: Vec<u32> = history.unsent().iter().map(|input| input.id).collect();
    assert_eq!(waiting, vec![1]);
    capture(&mut history, None);
    assert!(history.mark_sent(1));
    let waiting: Vec<u32> = history.unsent().iter().map(|input| input.id).collect();
    assert_eq!(waiting, vec![2]);
    assert!(!history.mark_sent(40));
}
