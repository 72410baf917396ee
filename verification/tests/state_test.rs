use lazer_refraction_renderer::controls::{edit_circle_vertices, flag_is_on, shader_flag, MIN_CIRCLE_VERTICES};
use lazer_refraction_renderer::frames::{FramePack, FrameTally};
use lazer_refraction_renderer::texture::{BuilderNoSampler, NoSampler};
use lazer_refraction_renderer::viewport::{surface_extent, ResizeAction, Viewport};
use std::time::Duration;

#[test]
fn resize_decides_action() {
    let mut v = Viewport::new(500, 500);
    assert_eq!(v.resize(500, 500), ResizeAction::Keep);
    assert_eq!(v.resize(800, 600), ResizeAction::Rebuild);
    assert_eq!(v.current, (800, 600));
    assert_eq!(v.resize(800, 600), ResizeAction::Keep);
    assert_eq!(v.resize(0, 600), ResizeAction::Release);
    assert_eq!(v.current, (0, 600));
    assert_eq!(v.resize(0, 600), ResizeAction::Keep);
    assert_eq!(v.resize(10, 0), ResizeAction::Release);
    assert_eq!(v.resize(10, 10), ResizeAction::Rebuild);
}

#[test]
fn update_reports_change() {
    let mut v = Viewport::new(0, 0);
    assert!(v.update((640, 480)));
    assert!(!v.update((640, 480)));
    assert!(v.update((641, 480)));
    assert_eq!(v.current, (641, 480));
}

#[test]
fn surface_extent_has_no_zero_side() {
    assert_eq!(surface_extent(0, 0), (1, 1));
    assert_eq!(surface_extent(1920, 0), (1920, 1));
    assert_eq!(surface_extent(800, 600), (800, 600));
}

#[test]
fn shader_flags_round_trip() {
    assert_eq!(shader_flag(true), 1);
    assert_eq!(shader_flag(false), 0);
    assert!(flag_is_on(shader_flag(true)));
    assert!(!flag_is_on(shader_flag(false)));
    assert!(!flag_is_on(2));
}

#[test]
fn circle_vertex_controls() {
    assert_eq!(MIN_CIRCLE_VERTICES, 3);
    assert_eq!(edit_circle_vertices(35, false, false, None), 35);
    assert_eq!(edit_circle_vertices(35, true, false, None), 36);
    assert_eq!(edit_circle_vertices(35, false, true, None), 34);
    assert_eq!(edit_circle_vertices(35, true, true, None), 35);
    assert_eq!(edit_circle_vertices(3, false, true, None), 3);
    assert_eq!(edit_circle_vertices(35, true, false, Some(1)), 3);
    assert_eq!(edit_circle_vertices(35, false, false, Some(300)), 300);
    assert_eq!(edit_circle_vertices(u32::MAX, false, false, None), u32::MAX);
}

#[test]
fn frame_tally_counts_between_readings() {
    let mut t = FrameTally::new();
    assert_eq!(t.frames(), 0);
    assert_eq!(t.tick(false), None);
    assert_eq!(t.tick(false), None);
    assert_eq!(t.frames(), 2);
    assert_eq!(t.tick(true), Some(3));
    assert_eq!(t.frames(), 0);
    assert_eq!(t.tick(true), Some(1));
}

#[test]
fn frame_pack_defaults_to_zero() {
    let p = FramePack::default();
    assert_eq!(p.frametime, Duration::ZERO);
    let q = FramePack { frametime: Duration::from_millis(7) };
    assert_eq!(q.frametime.as_millis(), 7);
}

#[test]
fn sampler_markers() {
    assert_eq!(NoSampler, NoSampler);
    assert_eq!(BuilderNoSampler, BuilderNoSampler);
}

use lazer_refraction_renderer::texture::{bound_slots, texture_layout, SlotLayout, TextureSlot};

#[test]
fn texture_layout_with_and_without_sampler() {
    assert_eq!(
        texture_layout(false, None),
        vec![SlotLayout { binding: 0, slot: TextureSlot::View { filterable: false } }]
    );
    assert_eq!(
        texture_layout(true, Some(true)),
        vec![
            SlotLayout { binding: 0, slot: TextureSlot::View { filterable: true } },
            SlotLayout { binding: 1, slot: TextureSlot::Sampler { filtering: true } },
        ]
    );
    assert_eq!(
        texture_layout(false, Some(false)),
        vec![
            SlotLayout { binding: 0, slot: TextureSlot::View { filterable: false } },
            SlotLayout { binding: 1, slot: TextureSlot::Sampler { filtering: false } },
        ]
    );
    assert_eq!(bound_slots(false), vec![0]);
    assert_eq!(bound_slots(true), vec![0, 1]);
}

#[test]
fn bind_group_matches_layout() {
    for filterable in [false, true] {
        for sampler in [None, Some(false), Some(true)] {
            let bindings: Vec<u32> = texture_layout(filterable, sampler).iter().map(|e| e.binding).collect();
            assert_eq!(bindings, bound_slots(sampler.is_some()));
        }
    }
}
