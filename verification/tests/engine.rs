use face_anim::anim::{interpolate, AnimationState};
use face_anim::pose::{label_index, LogLine, Message, PointData, Pose};
use face_anim::repo::{normalize_coord, FaceRepo};

fn pose_with_a(x: i32, y: i32) -> Pose {
    let mut p = Pose::empty();
    p.set(0, PointData { x, y });
    p
}

#[test]
fn interpolate_moves_by_step() {
    assert_eq!(interpolate(10, 20, 2), 12);
    assert_eq!(interpolate(20, 10, 2), 18);
}

#[test]
fn interpolate_never_overshoots() {
    assert_eq!(interpolate(19, 20, 2), 20);
    assert_eq!(interpolate(11, 10, 2), 10);
    assert_eq!(interpolate(10, 20, 200), 20);
    assert_eq!(interpolate(20, 10, 200), 10);
}

#[test]
fn interpolate_survives_integer_extremes() {
    assert_eq!(interpolate(i32::MIN, i32::MAX, i32::MAX), -1);
    assert_eq!(interpolate(i32::MAX, i32::MIN, i32::MAX), 0);
    assert_eq!(interpolate(i32::MIN, i32::MIN + 1, 2), i32::MIN + 1);
    assert_eq!(interpolate(i32::MAX, i32::MAX - 1, 2), i32::MAX - 1);
}

#[test]
fn interpolate_stable_once_equal() {
    assert_eq!(interpolate(10, 10, 2), 10);
    assert_eq!(interpolate(-4, -4, 7), -4);
}

#[test]
fn five_ticks_reach_target_and_stay() {
    // Current pose {a:(10,10)}, target {a:(20,10)}, step magnitude 2:
    // after 5 ticks the current pose is {a:(20,10)} and remains so.
    let current = pose_with_a(10, 10);
    let target = pose_with_a(20, 10);
    let mut state = AnimationState::new(current, target);
    for _ in 0..5 {
        state.tick();
    }
    assert_eq!(state.current.get(0), Some(PointData { x: 20, y: 10 }));
    state.tick();
    state.tick();
    assert_eq!(state.current.get(0), Some(PointData { x: 20, y: 10 }));
}

#[test]
fn odd_distance_takes_ceil_of_half() {
    // Distance 5 at step 2 needs ceil(5 / 2) = 3 ticks: not there after 2.
    let current = pose_with_a(0, 0);
    let target = pose_with_a(5, 0);
    let mut state = AnimationState::new(current, target);
    state.tick();
    state.tick();
    assert_eq!(state.current.get(0), Some(PointData { x: 4, y: 0 }));
    state.tick();
    assert_eq!(state.current.get(0), Some(PointData { x: 5, y: 0 }));
}

#[test]
fn labels_missing_from_target_are_dropped() {
    let mut current = Pose::empty();
    current.set(0, PointData { x: 10, y: 10 });
    current.set(1, PointData { x: 30, y: 30 });
    let target = pose_with_a(10, 10);
    let mut state = AnimationState::new(current, target);
    state.tick();
    assert_eq!(state.current.get(0), Some(PointData { x: 10, y: 10 }));
    assert_eq!(state.current.get(1), None);
}

#[test]
fn tick_counter_counts_and_wraps() {
    let mut state = AnimationState::new(Pose::empty(), Pose::empty());
    assert_eq!(state.get_tick_state(), 0);
    state.tick();
    assert_eq!(state.get_tick_state(), 1);
    for _ in 1..128 {
        state.tick();
    }
    // 128 ticks in all: the counter has wrapped back to 0.
    assert_eq!(state.get_tick_state(), 0);
}

#[test]
fn label_index_covers_the_alphabet() {
    assert_eq!(label_index("a"), Some(0));
    assert_eq!(label_index("d"), Some(3));
    assert_eq!(label_index("r"), Some(17));
    assert_eq!(label_index("s"), None);
    assert_eq!(label_index("A"), None);
    assert_eq!(label_index("ab"), None);
    assert_eq!(label_index(""), None);
}

#[test]
fn normalization_halves_and_offsets() {
    assert_eq!(normalize_coord(100), 100);
    assert_eq!(normalize_coord(0), 50);
    assert_eq!(normalize_coord(7), 53);
    // Truncating halving on a negative raw coordinate.
    assert_eq!(normalize_coord(-7), 47);
}

fn record(label: &str, x: i32, y: i32) -> LogLine {
    LogLine {
        level: String::from("INFO"),
        message: Message {
            emo: String::from("happy"),
            points: vec![(String::from(label), PointData { x, y })],
        },
    }
}

#[test]
fn three_valid_lines_and_one_malformed_yield_three_poses() {
    let records = vec![
        Some(record("a", 10, 20)),
        None,
        Some(record("a", 30, 40)),
        Some(record("a", 50, 60)),
    ];
    let repo = FaceRepo::from_records(&records);
    assert_eq!(repo.face_count(), 3);
}

#[test]
fn random_pose_comes_from_the_loaded_set() {
    let records = vec![
        Some(record("a", 10, 20)),
        None,
        Some(record("a", 30, 40)),
        Some(record("a", 50, 60)),
    ];
    let repo = FaceRepo::from_records(&records);
    let expected = [
        PointData { x: 55, y: 60 },
        PointData { x: 65, y: 70 },
        PointData { x: 75, y: 80 },
    ];
    for _ in 0..20 {
        let pose = repo.get_random_face();
        let got = pose.get(0).expect("loaded poses carry label a");
        assert!(expected.contains(&got));
    }
}

#[test]
fn last_entry_wins_and_unknown_labels_are_ignored() {
    let rec = LogLine {
        level: String::from("INFO"),
        message: Message {
            emo: String::from("happy"),
            points: vec![
                (String::from("a"), PointData { x: 2, y: 2 }),
                (String::from("zz"), PointData { x: 4, y: 4 }),
                (String::from("a"), PointData { x: 6, y: 8 }),
            ],
        },
    };
    let repo = FaceRepo::from_records(&vec![Some(rec)]);
    assert_eq!(repo.face_count(), 1);
    let pose = repo.get_random_face();
    // 6/2 + 50 and 8/2 + 50: the later entry for `a` won.
    assert_eq!(pose.get(0), Some(PointData { x: 53, y: 54 }));
    for k in 1..18 {
        assert_eq!(pose.get(k), None);
    }
}

#[test]
fn set_face_replaces_only_the_target() {
    let records = vec![Some(record("a", 10, 20))];
    let repo = FaceRepo::from_records(&records);
    let mut state = AnimationState::new(pose_with_a(1, 2), Pose::empty());
    state.tick();
    let counter = state.get_tick_state();
    state.set_face(&repo);
    assert_eq!(state.get_tick_state(), counter);
    assert_eq!(state.target.get(0), Some(PointData { x: 55, y: 60 }));
}
