use lazer_refraction_renderer::wgsl::{combine_sources, wgsl_struct, wgsl_type};

const SETTINGS_FIELDS: [(&str, &str); 18] = [
    ("timestamp", "f32"),
    ("aspect", "f32"),
    ("mouse_pos_clip", "Vec2"),
    ("ray_count", "u32"),
    ("total_light", "f32"),
    ("a_factor", "f32"),
    ("b_factor", "f32"),
    ("brightness_scale", "f32"),
    ("absobtion", "f32"),
    ("bounces", "u32"),
    ("spread", "f32"),
    ("width", "f32"),
    ("light_dir", "f32"),
    ("light_pos", "Vec2"),
    ("follow_mouse", "u32"),
    ("nudge_factor", "f32"),
    ("tonemapping", "u32"),
    ("debug_cutoff", "f32"),
];

#[test]
fn mod_test() {
    println!("{}", wgsl_struct("Settings", &SETTINGS_FIELDS));
}

#[test]
fn settings_declaration() {
    let s = wgsl_struct("Settings", &SETTINGS_FIELDS);
    assert!(s.starts_with("struct Settings {\n\ttimestamp: f32,\n\taspect: f32,\n\tmouse_pos_clip: vec2<f32>,\n"));
    assert!(s.ends_with("\tdebug_cutoff: f32,\n}"));
    assert_eq!(s.lines().count(), 20);
}

#[test]
fn light_ray_declaration() {
    let fields = [
        ("pos", "Vec2"),
        ("last_pos", "Vec2"),
        ("dir", "Vec2"),
        ("strength", "f32"),
        ("wave_length_and_ior", "u32"),
    ];
    assert_eq!(
        wgsl_struct("LightRay", &fields),
        "struct LightRay {\n\tpos: vec2<f32>,\n\tlast_pos: vec2<f32>,\n\tdir: vec2<f32>,\n\tstrength: f32,\n\twave_length_and_ior: u32,\n}"
    );
}

#[test]
fn empty_struct() {
    assert_eq!(wgsl_struct("Empty", &[]), "struct Empty {\n}");
}

#[test]
fn type_spellings() {
    assert_eq!(wgsl_type("Vec2"), "vec2<f32>");
    assert_eq!(wgsl_type("glam::Vec3"), "vec3<f32>");
    assert_eq!(wgsl_type("[f32; 4]"), "vec4<f32>");
    assert_eq!(wgsl_type("IVec2"), "vec2<i32>");
    assert_eq!(wgsl_type("[i32; 3]"), "vec3<i32>");
    assert_eq!(wgsl_type("glam::IVec4"), "vec4<i32>");
    assert_eq!(wgsl_type("UVec2"), "vec2<u32>");
    assert_eq!(wgsl_type("[u32; 3]"), "vec3<u32>");
    assert_eq!(wgsl_type("glam::UVec4"), "vec4<u32>");
    assert_eq!(wgsl_type("f32"), "f32");
    assert_eq!(wgsl_type("u32"), "u32");
    assert_eq!(wgsl_type("Vec2 "), "Vec2 ");
    assert_eq!(wgsl_type(""), "");
}

#[test]
fn combine_joins_in_order() {
    assert_eq!(combine_sources(&["fn a() {}\n", "struct B {}\n", ""]), "fn a() {}\nstruct B {}\n");
    assert_eq!(combine_sources(&[]), "");
}
