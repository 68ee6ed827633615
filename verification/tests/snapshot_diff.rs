use boxman::scalar::{Scalar, Vector3};
use boxman::snapshot::{CharacterSnapshot, CharacterSnapshotDiff, Snapshot};

fn s(value: f32) -> Scalar {
    Scalar { bits: value.to_bits() }
}

fn v(x: f32, y: f32, z: f32) -> Vector3 {
    Vector3 { x: s(x), y: s(y), z: s(z) }
}

fn character(client_id: u64, position: Vector3, velocity: Vector3) -> CharacterSnapshot {
    CharacterSnapshot {
        client_id,
        translation: position,
        velocity,
        yaw: s(0.25),
        pitch: s(0.0),
        grounded: true,
    }
}

#[test]
fn unchanged_character_yields_no_record() {
    let a = character(7, v(1.0, 2.0, 3.0), v(0.0, 0.0, 0.0));
    assert_eq!(a.diff(&a), None);
}

#[test]
fn changed_position_is_present_and_unchanged_velocity_absent() {
    let older = Snapshot {
        id: 4,
        character_snapshots: vec![character(7, v(1.0, 2.0, 3.0), v(0.5, 0.0, 0.0))],
    };
    let newer = Snapshot {
        id: 5,
        character_snapshots: vec![character(7, v(1.5, 2.0, 3.0), v(0.5, 0.0, 0.0))],
    };
    let diff = newer.diff(&older);
    assert_eq!(diff.id, 5);
    assert_eq!(diff.acked_input_id, None);
    assert_eq!(
        diff.character_snapshots,
        vec![CharacterSnapshotDiff {
            client_id: 7,
            position: Some(v(1.5, 2.0, 3.0)),
            velocity: None,
            yaw: None,
            pitch: None,
            grounded: None,
        }]
    );
    assert!(diff.character_deletions.is_empty());
}

#[test]
fn every_changed_field_is_reported() {
    let older = CharacterSnapshot {
        client_id: 1,
        translation: v(0.0, 0.0, 0.0),
        velocity: v(0.0, 0.0, 0.0),
        yaw: s(0.0),
        pitch: s(0.0),
        grounded: false,
    };
    let newer = CharacterSnapshot {
        client_id: 1,
        translation: v(0.0, 1.0, 0.0),
        velocity: v(0.0, -9.0, 0.0),
        yaw: s(1.0),
        pitch: s(-1.0),
        grounded: true,
    };
    assert_eq!(
        newer.diff(&older),
        Some(CharacterSnapshotDiff {
            client_id: 1,
            position: Some(v(0.0, 1.0, 0.0)),
            velocity: Some(v(0.0, -9.0, 0.0)),
            yaw: Some(s(1.0)),
            pitch: Some(s(-1.0)),
            grounded: Some(true),
        })
    );
}

#[test]
fn unseen_character_is_sent_in_full() {
    let older = Snapshot { id: 1, character_snapshots: vec![] };
    let newcomer = character(9, v(0.0, 2.0, 0.0), v(0.0, 0.0, 0.0));
    let newer = Snapshot { id: 2, character_snapshots: vec![newcomer] };
    let diff = newer.diff(&older);
    assert_eq!(diff.character_snapshots, vec![CharacterSnapshotDiff::from(&newcomer)]);
    let record = diff.character_snapshots[0];
    assert_eq!(record.position, Some(v(0.0, 2.0, 0.0)));
    assert_eq!(record.velocity, Some(v(0.0, 0.0, 0.0)));
    assert_eq!(record.yaw, Some(s(0.25)));
    assert_eq!(record.pitch, Some(s(0.0)));
    assert_eq!(record.grounded, Some(true));
}

#[test]
fn departed_character_is_listed_as_deleted() {
    let older = Snapshot {
        id: 1,
        character_snapshots: vec![
            character(1, v(0.0, 0.0, 0.0), v(0.0, 0.0, 0.0)),
            character(2, v(1.0, 0.0, 0.0), v(0.0, 0.0, 0.0)),
            character(3, v(2.0, 0.0, 0.0), v(0.0, 0.0, 0.0)),
        ],
    };
    let newer = Snapshot {
        id: 2,
        character_snapshots: vec![character(2, v(1.0, 0.0, 0.0), v(0.0, 0.0, 0.0))],
    };
    let diff = newer.diff(&older);
    assert!(diff.character_snapshots.is_empty());
    assert_eq!(diff.character_deletions, vec![1, 3]);
}

#[test]
fn full_update_carries_every_field_of_every_character() {
    let snapshot = Snapshot {
        id: 11,
        character_snapshots: vec![
            character(1, v(0.0, 0.0, 0.0), v(0.0, 0.0, 0.0)),
            character(2, v(1.0, 0.0, 0.0), v(0.0, 1.0, 0.0)),
        ],
    };
    let full = snapshot.full();
    assert_eq!(full.id, 11);
    assert_eq!(full.character_snapshots.len(), 2);
    for (record, character) in full.character_snapshots.iter().zip(snapshot.character_snapshots.iter()) {
        assert_eq!(record.client_id, character.client_id);
        assert_eq!(record.position, Some(character.translation));
        assert_eq!(record.velocity, Some(character.velocity));
        assert_eq!(record.yaw, Some(character.yaw));
        assert_eq!(record.pitch, Some(character.pitch));
        assert_eq!(record.grounded, Some(character.grounded));
    }
    assert!(full.character_deletions.is_empty());
}

#[test]
fn zeros_of_either_sign_are_unchanged() {
    let older = character(1, v(0.0, 0.0, 0.0), v(0.0, 0.0, 0.0));
    let newer = character(1, v(-0.0, 0.0, -0.0), v(0.0, -0.0, 0.0));
    assert_eq!(newer.diff(&older), None);
}

#[test]
fn nan_field_is_always_reported() {
    let older = character(1, v(f32::NAN, 0.0, 0.0), v(0.0, 0.0, 0.0));
    let record = older.diff(&older).expect("a NaN equals nothing");
    assert_eq!(record.position, Some(older.translation));
    assert_eq!(record.velocity, None);
}

#[test]
fn first_character_of_a_client_is_the_one_compared() {
    let older = Snapshot {
        id: 1,
        character_snapshots: vec![
            character(5, v(1.0, 0.0, 0.0), v(0.0, 0.0, 0.0)),
            character(5, v(9.0, 0.0, 0.0), v(0.0, 0.0, 0.0)),
        ],
    };
    let newer = Snapshot {
        id: 2,
        character_snapshots: vec![character(5, v(9.0, 0.0, 0.0), v(0.0, 0.0, 0.0))],
    };
    let diff = newer.diff(&older);
    assert_eq!(diff.character_snapshots.len(), 1);
    assert_eq!(diff.character_snapshots[0].position, Some(v(9.0, 0.0, 0.0)));
}
