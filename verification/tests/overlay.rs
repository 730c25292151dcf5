use bevy_shooter::mesh::{darkness_indices, darkness_vertices};

#[test]
fn overlay_without_polygon_is_the_frame() {
    assert_eq!(darkness_indices(0), vec![0, 1, 2, 0, 2, 3]);
    assert_eq!(darkness_indices(2), vec![0, 1, 2, 0, 2, 3]);
}

#[test]
fn overlay_fan_over_polygon() {
    assert_eq!(darkness_indices(3), vec![0, 1, 2, 0, 2, 3, 4, 5, 6]);
    assert_eq!(
        darkness_indices(5),
        vec![0, 1, 2, 0, 2, 3, 4, 5, 6, 4, 6, 7, 4, 7, 8]
    );
}

#[test]
fn overlay_indices_name_existing_vertices() {
    for n in 0..40usize {
        let indices = darkness_indices(n);
        assert_eq!(indices.len() % 3, 0);
        assert!(indices.iter().all(|&i| (i as usize) < 4 + n));
    }
}

#[test]
fn overlay_vertices_frame_then_polygon_reversed() {
    let frame = [[-480.0f32, -320.0], [480.0, -320.0], [480.0, 320.0], [-480.0, 320.0]];
    let polygon = [[1.0f32, 2.0], [3.0, 4.0], [5.0, 6.0]];
    let vertices = darkness_vertices(&frame, &polygon);
    assert_eq!(
        vertices,
        vec![
            [-480.0, -320.0],
            [480.0, -320.0],
            [480.0, 320.0],
            [-480.0, 320.0],
            [5.0, 6.0],
            [3.0, 4.0],
            [1.0, 2.0]
        ]
    );
}
