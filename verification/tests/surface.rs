use face_anim::framebuffer::{Framebuffer, HEIGHT, WIDTH};
use face_anim::pose::{PointData, Pose};
use face_anim::render::{draw_ui, pose_renderable, random_jitter, Jitter, BLACK, BLUE, GREEN, PURPLE};

#[test]
fn dimensions_are_fixed() {
    let fb = Framebuffer::new(0);
    assert_eq!(fb.dimensions(), (240, 240));
}

#[test]
fn new_and_clear_fill_every_cell() {
    let mut fb = Framebuffer::new(7);
    fb.clear(BLUE);
    let frame = fb.into_frame();
    assert_eq!(frame.len(), WIDTH * HEIGHT);
    assert!(frame.iter().all(|&c| c == BLUE));
}

#[test]
fn draw_points_clips_out_of_bounds_points() {
    let mut fb = Framebuffer::new(0);
    let pts = vec![
        (-1, 0),
        (0, -1),
        (WIDTH as i32, 0),
        (0, HEIGHT as i32),
        (i32::MIN, i32::MAX),
        (i32::MAX, 5),
        (5, 5),
    ];
    fb.draw_points(&pts, 9);
    let frame = fb.into_frame();
    assert_eq!(frame.len(), WIDTH * HEIGHT);
    // Only the one in-bounds point was written.
    assert_eq!(frame[5 * WIDTH + 5], 9);
    assert_eq!(frame.iter().filter(|&&c| c == 9).count(), 1);
}

#[test]
fn draw_iter_takes_per_point_colors_and_the_last_write_wins() {
    let mut fb = Framebuffer::new(0);
    fb.draw_iter(&vec![(3, 4, 1), (5, 6, 2), (3, 4, 7), (-3, 900, 9)]);
    let frame = fb.into_frame();
    assert_eq!(frame[4 * WIDTH + 3], 7);
    assert_eq!(frame[6 * WIDTH + 5], 2);
    assert_eq!(frame.iter().filter(|&&c| c != 0).count(), 2);
}

#[test]
fn later_draws_occlude_earlier_ones() {
    let mut fb = Framebuffer::new(0);
    fb.draw_points(&vec![(3, 4), (5, 6)], 1);
    fb.draw_points(&vec![(5, 6)], 2);
    let frame = fb.into_frame();
    assert_eq!(frame[4 * WIDTH + 3], 1);
    assert_eq!(frame[6 * WIDTH + 5], 2);
}

fn test_pose() -> Pose {
    let corners = [(150, 150), (200, 150), (200, 200), (150, 200)];
    let lines = [
        (20, 20),
        (40, 20),
        (60, 20),
        (80, 20),
        (20, 40),
        (40, 40),
        (60, 40),
        (80, 40),
        (20, 60),
        (40, 60),
        (60, 60),
        (80, 60),
    ];
    let pupils = [(100, 100), (120, 100)];
    let mut p = Pose::empty();
    for (k, &(x, y)) in corners.iter().chain(lines.iter()).chain(pupils.iter()).enumerate() {
        p.set(k, PointData { x, y });
    }
    p
}

fn fixed_jitter() -> Jitter {
    Jitter { main: vec![(1, 1); 18], corners: vec![(-10, -10); 4] }
}

#[test]
fn random_jitter_stays_in_its_ranges() {
    for _ in 0..10 {
        let j = random_jitter();
        assert_eq!(j.main.len(), 18);
        assert_eq!(j.corners.len(), 4);
        assert!(j.main.iter().all(|&(dx, dy)| (1..=5).contains(&dx) && (1..=5).contains(&dy)));
        assert!(j
            .corners
            .iter()
            .all(|&(dx, dy)| (-10..=10).contains(&dx) && (-10..=10).contains(&dy)));
    }
}

#[test]
fn incomplete_or_huge_poses_are_not_renderable() {
    assert!(pose_renderable(&test_pose()));
    assert!(!pose_renderable(&Pose::empty()));
    let mut huge = test_pose();
    huge.set(9, PointData { x: 100_000, y: 0 });
    assert!(!pose_renderable(&huge));
}

#[test]
fn rendering_is_reproducible_with_a_fixed_jitter() {
    let pose = test_pose();
    let first = draw_ui(&pose, &fixed_jitter());
    let second = draw_ui(&pose, &fixed_jitter());
    assert_eq!(first.len(), WIDTH * HEIGHT);
    assert_eq!(first, second);
}

#[test]
fn a_far_off_surface_pose_leaves_only_the_background() {
    let mut p = Pose::empty();
    for k in 0..18 {
        p.set(k, PointData { x: 9000, y: 9000 });
    }
    assert!(pose_renderable(&p));
    let frame = draw_ui(&p, &fixed_jitter());
    assert!(frame.iter().all(|&c| c == BLUE));
}

#[test]
fn rendering_paints_in_the_fixed_z_order() {
    let pose = test_pose();
    let frame = draw_ui(&pose, &fixed_jitter());
    let at = |x: usize, y: usize| frame[y * WIDTH + x];
    // Far from every shape: the cleared background.
    assert_eq!(at(10, 200), BLUE);
    // Inside the jittered background pair but outside the silhouette.
    assert_eq!(at(150, 145), PURPLE);
    // Inside the silhouette, which occludes the background pair.
    assert_eq!(at(190, 160), GREEN);
    // On an eyebrow line.
    assert_eq!(at(30, 21), BLACK);
    // Inside a pupil.
    assert_eq!(at(105, 105), BLACK);
}
