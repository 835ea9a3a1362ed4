use webgl_vs_webgpu::frame::{RefreshCounter, HISTORY_LEN, REFRESH_INTERVAL};
use webgl_vs_webgpu::mesh::{triangle_indices, vertex_buffer_size};
use webgl_vs_webgpu::scenario::{container_id, viewport_min_side, PSO_COUNT};

#[test]
fn statistics_refresh_every_twentieth_frame() {
    let mut c = RefreshCounter::new();
    assert_eq!(c.refresh_count, 0);
    let mut refreshed = Vec::new();
    for frame in 1..=45u64 {
        if c.on_new_frame() {
            refreshed.push(frame);
        }
    }
    assert_eq!(refreshed, vec![20, 40]);
    assert_eq!(c.refresh_count, 45);
    assert_eq!(REFRESH_INTERVAL, 20);
    assert_eq!(HISTORY_LEN, 200);
}

#[test]
fn one_refresh_in_any_twenty_frames() {
    let mut c = RefreshCounter { refresh_count: 1234 };
    let n = (0..20).filter(|_| c.on_new_frame()).count();
    assert_eq!(n, 1);
}

#[test]
fn triangle_corners_in_order() {
    assert_eq!(triangle_indices(&vec![[0, 1, 2], [2, 3, 0]]), vec![0, 1, 2, 2, 3, 0]);
    assert!(triangle_indices(&vec![]).is_empty());
}

#[test]
fn indices_are_narrowed_to_u32() {
    let big = (u32::MAX as usize).wrapping_add(6);
    let expected = big as u32;
    assert_eq!(triangle_indices(&vec![[big, 1, 2]]), vec![expected, 1, 2]);
}

#[test]
fn vertex_buffer_holds_32_bytes_per_vertex() {
    assert_eq!(vertex_buffer_size(0), 0);
    assert_eq!(vertex_buffer_size(10), 320);
    assert_eq!(vertex_buffer_size(1000), 32000);
}

#[test]
fn scene_settings() {
    assert_eq!(PSO_COUNT, 1000);
    assert_eq!(viewport_min_side(800, 600), 600);
    assert_eq!(viewport_min_side(600, 800), 600);
    assert_eq!(viewport_min_side(500, 500), 500);
    assert_eq!(container_id(true), "webgl-container");
    assert_eq!(container_id(false), "webgpu-container");
}
