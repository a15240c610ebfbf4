use orrery::color::Color;
use orrery::fixed::{fx_add, fx_clamp, fx_div, fx_mul, isqrt, FX_ONE};
use orrery::fragment::Fragment;
use orrery::framebuffer::{Framebuffer, DEPTH_FAR};
use orrery::light::Light;
use orrery::noise::Noise;
use orrery::render::render;
use orrery::shaders::{ring_shader, select_shader, sun_shader, vertex_shader};
use orrery::triangle::triangle;
use orrery::uniforms::Uniforms;
use orrery::vecmat::{magnitude2, FxMat4, FxVec2, FxVec3};
use orrery::vertex::Vertex;
use font8x8::UnicodeFonts;

fn frag_at(x: usize, y: usize, vp: FxVec3) -> Fragment {
    Fragment::new(x, y, Color::new(0, 0, 0), FX_ONE, FxVec3::new(0, 0, FX_ONE), 0, vp)
}

fn identity_uniforms(seed: u64, time: u32) -> Uniforms {
    Uniforms::new(
        FxMat4::identity(),
        FxMat4::identity(),
        FxMat4::identity(),
        FxMat4::identity(),
        time,
        Noise::new(seed),
    )
}

fn flat_vertex(x: i64, y: i64, z: i64, color: Color) -> Vertex {
    // zero normal: the relief displacement vanishes, so the transformed
    // position equals the object position under identity matrices
    let mut v = Vertex::new(
        FxVec3::new(x, y, z),
        FxVec3::new(0, 0, 0),
        FxVec2 { x: 0, y: 0 },
        color,
    );
    v.transformed_position = FxVec3::new(x, y, z);
    v
}

// fixed-point arithmetic

#[test]
fn fx_mul_halves_and_scales() {
    assert_eq!(fx_mul(196608, 32768), 98304); // 3.0 * 0.5 == 1.5
    assert_eq!(fx_mul(-131072, 32768), -65536); // -2.0 * 0.5 == -1.0
    assert_eq!(fx_mul(65536, 65536), 65536);
    assert_eq!(fx_mul(0, 12345), 0);
}

#[test]
fn fx_div_exact() {
    assert_eq!(fx_div(65536, 131072), 32768); // 1.0 / 2.0 == 0.5
    assert_eq!(fx_div(196608, 65536), 196608); // 3.0 / 1.0 == 3.0
}

#[test]
fn fx_add_and_clamp() {
    assert_eq!(fx_add(65536, 65536), 131072);
    assert_eq!(fx_add(i64::MAX, 1), i64::MAX); // saturates
    assert_eq!(fx_clamp(70000, 0, 65536), 65536);
    assert_eq!(fx_clamp(-3, 0, 65536), 0);
    assert_eq!(fx_clamp(100, 0, 65536), 100);
}

#[test]
fn isqrt_exact_values() {
    assert_eq!(isqrt(0), 0);
    assert_eq!(isqrt(144), 12);
    assert_eq!(isqrt(145), 12);
    assert_eq!(isqrt(u128::from(u64::MAX)) , 4294967295);
}

#[test]
fn magnitude_of_three_four_is_five() {
    // a 3-4-5 triangle in Q16.16 is exact
    let v = FxVec3::new(3 * FX_ONE, 4 * FX_ONE, 0);
    assert_eq!(v.magnitude(), 5 * FX_ONE);
    assert_eq!(magnitude2(3 * FX_ONE, 4 * FX_ONE), 5 * FX_ONE);
}

// colors

#[test]
fn color_hex_round_trip() {
    let c = Color::from_hex(0x123456);
    assert_eq!(c.r, 0x12);
    assert_eq!(c.g, 0x34);
    assert_eq!(c.b, 0x56);
    assert_eq!(c.to_hex(), 0x123456);
}

#[test]
fn color_lerp_midpoint() {
    let black = Color::new(0, 0, 0);
    let white = Color::new(255, 255, 255);
    let mid = black.lerp(&white, 32768);
    assert_eq!((mid.r, mid.g, mid.b), (127, 127, 127));
    // the factor is clamped into [0, 1]
    assert_eq!(black.lerp(&white, -70000), black);
    assert_eq!(black.lerp(&white, 200000), white);
}

#[test]
fn color_scale_clamps() {
    let c = Color::new(100, 200, 0);
    let doubled = c.scale(131072);
    assert_eq!((doubled.r, doubled.g, doubled.b), (200, 255, 0));
    let negated = c.scale(-65536);
    assert_eq!((negated.r, negated.g, negated.b), (0, 0, 0));
}

#[test]
fn color_add_saturates() {
    let a = Color::new(200, 200, 200);
    let b = Color::new(100, 1, 55);
    let s = a.add(&b);
    assert_eq!((s.r, s.g, s.b), (255, 201, 255));
}

// noise

#[test]
fn noise_is_deterministic_and_in_range() {
    let n = Noise::new(42);
    for i in 0..50i64 {
        let x = i * 12345 - 300000;
        let y = i * 54321 - 100000;
        let z = i * 777 - 50000;
        let a = n.get_noise_2d(x, y);
        assert_eq!(a, n.get_noise_2d(x, y));
        assert!(-65536 <= a && a <= 65536);
        let b = n.get_noise_3d(x, y, z);
        assert_eq!(b, n.get_noise_3d(x, y, z));
        assert!(-65536 <= b && b <= 65536);
    }
}

#[test]
fn noise_seeds_differ() {
    let a = Noise::new(1);
    let b = Noise::new(2);
    let mut same = true;
    for i in 0..20i64 {
        if a.get_noise_2d(i * 99991, i * 12007) != b.get_noise_2d(i * 99991, i * 12007) {
            same = false;
        }
    }
    assert!(!same);
}

// framebuffer: clear, point, depth test

#[test]
fn clear_resets_every_pixel_and_depth() {
    let mut fb = Framebuffer::new(4, 3);
    fb.set_background_color(0xAABBCC);
    fb.set_current_color(0x112233);
    fb.point(1, 1, 100);
    fb.clear();
    for i in 0..12 {
        assert_eq!(fb.buffer[i], 0xAABBCC);
        assert_eq!(fb.zbuffer[i], DEPTH_FAR);
    }
}

#[test]
fn point_nearest_wins_either_order() {
    // near-then-far and far-then-near both leave the nearer color
    let mut fb = Framebuffer::new(2, 2);
    fb.clear();
    fb.set_current_color(0x00FF00);
    fb.point(0, 0, 1000);
    fb.set_current_color(0xFF0000);
    fb.point(0, 0, 2000);
    assert_eq!(fb.buffer[0], 0x00FF00);
    assert_eq!(fb.zbuffer[0], 1000);

    let mut fb2 = Framebuffer::new(2, 2);
    fb2.clear();
    fb2.set_current_color(0xFF0000);
    fb2.point(0, 0, 2000);
    fb2.set_current_color(0x00FF00);
    fb2.point(0, 0, 1000);
    assert_eq!(fb2.buffer[0], 0x00FF00);
    assert_eq!(fb2.zbuffer[0], 1000);
}

#[test]
fn point_equal_depth_keeps_first() {
    let mut fb = Framebuffer::new(2, 2);
    fb.clear();
    fb.set_current_color(0x00FF00);
    fb.point(1, 1, 500);
    fb.set_current_color(0xFF0000);
    fb.point(1, 1, 500);
    assert_eq!(fb.buffer[3], 0x00FF00);
    assert_eq!(fb.zbuffer[3], 500);
}

#[test]
fn point_out_of_range_is_dropped() {
    let mut fb = Framebuffer::new(2, 2);
    fb.clear();
    fb.set_current_color(0xFF00FF);
    fb.point(2, 0, 1);
    fb.point(0, 2, 1);
    for i in 0..4 {
        assert_eq!(fb.buffer[i], 0);
        assert_eq!(fb.zbuffer[i], DEPTH_FAR);
    }
}

// rasterizer

#[test]
fn degenerate_triangle_yields_no_fragments() {
    // three collinear screen points: zero signed area
    let c = Color::new(9, 9, 9);
    let v0 = flat_vertex(0, 0, FX_ONE, c);
    let v1 = flat_vertex(2 * FX_ONE, 2 * FX_ONE, FX_ONE, c);
    let v2 = flat_vertex(4 * FX_ONE, 4 * FX_ONE, FX_ONE, c);
    let frags = triangle(&v0, &v1, &v2, 16, 16);
    assert_eq!(frags.len(), 0);
}

#[test]
fn right_triangle_covers_inclusive_half_square() {
    // screen vertices (0,0), (4,0), (0,4), all at depth 1
    let c = Color::new(1, 2, 3);
    let v0 = flat_vertex(0, 0, FX_ONE, c);
    let v1 = flat_vertex(4 * FX_ONE, 0, FX_ONE, c);
    let v2 = flat_vertex(0, 4 * FX_ONE, FX_ONE, c);
    let frags = triangle(&v0, &v1, &v2, 8, 8);
    let mut covered = [[false; 8]; 8];
    for f in &frags {
        assert!(f.x < 8 && f.y < 8);
        assert!(!covered[f.y][f.x], "pixel emitted twice");
        covered[f.y][f.x] = true;
        assert_eq!(f.depth, FX_ONE);
    }
    for y in 0..8 {
        for x in 0..8 {
            assert_eq!(covered[y][x], x + y <= 4, "coverage at ({}, {})", x, y);
        }
    }
}

#[test]
fn right_triangle_drawn_with_current_color() {
    // the example scene: current color 0xFFFFFF over background 0x000000
    let mut fb = Framebuffer::new(8, 8);
    fb.set_background_color(0x000000);
    fb.clear();
    fb.set_current_color(0xFFFFFF);
    let c = Color::new(1, 2, 3);
    let v0 = flat_vertex(0, 0, FX_ONE, c);
    let v1 = flat_vertex(4 * FX_ONE, 0, FX_ONE, c);
    let v2 = flat_vertex(0, 4 * FX_ONE, FX_ONE, c);
    let frags = triangle(&v0, &v1, &v2, 8, 8);
    for f in &frags {
        fb.point(f.x, f.y, f.depth);
    }
    for y in 0..8 {
        for x in 0..8 {
            let i = y * 8 + x;
            if x + y <= 4 {
                assert_eq!(fb.buffer[i], 0xFFFFFF);
                assert_eq!(fb.zbuffer[i], FX_ONE);
            } else {
                assert_eq!(fb.buffer[i], 0x000000);
                assert_eq!(fb.zbuffer[i], DEPTH_FAR);
            }
        }
    }
}

#[test]
fn interpolation_exact_at_vertex() {
    // at v0's own pixel the fragment reproduces v0's attributes exactly
    let mut v0 = Vertex::new(
        FxVec3::new(100, 200, 300),
        FxVec3::new(11, 22, 33),
        FxVec2 { x: 0, y: 0 },
        Color::new(10, 20, 30),
    );
    v0.transformed_position = FxVec3::new(FX_ONE, FX_ONE, FX_ONE);
    v0.transformed_normal = FxVec3::new(7, 8, 9);
    let mut v1 = Vertex::new(
        FxVec3::new(-500, 0, 0),
        FxVec3::new(0, 0, 0),
        FxVec2 { x: 0, y: 0 },
        Color::new(40, 50, 60),
    );
    v1.transformed_position = FxVec3::new(5 * FX_ONE, FX_ONE, 2 * FX_ONE);
    v1.transformed_normal = FxVec3::new(-1, -2, -3);
    let mut v2 = Vertex::new(
        FxVec3::new(0, 900, 0),
        FxVec3::new(0, 0, 0),
        FxVec2 { x: 0, y: 0 },
        Color::new(70, 80, 90),
    );
    v2.transformed_position = FxVec3::new(FX_ONE, 5 * FX_ONE, 3 * FX_ONE);
    v2.transformed_normal = FxVec3::new(100, 200, 300);
    let frags = triangle(&v0, &v1, &v2, 16, 16);
    let at_v0: Vec<&Fragment> = frags.iter().filter(|f| f.x == 1 && f.y == 1).collect();
    assert_eq!(at_v0.len(), 1);
    let f = at_v0[0];
    assert_eq!(f.depth, FX_ONE);
    assert_eq!(f.color, Color::new(10, 20, 30));
    assert_eq!(f.normal, FxVec3::new(7, 8, 9));
    assert_eq!(f.vertex_position, FxVec3::new(100, 200, 300));
}

// shaders

#[test]
fn ring_bands_follow_radial_distance() {
    // band width 0.25 (16384), four palette entries
    let palette = [0xB0C4DEu32, 0x708090, 0xA9A9A9, 0xF5F5DC];
    for (r, z) in [(0i64, 0i64), (16384, 0), (32768, 0), (49152, 0), (65536, 0)] {
        let f = frag_at(0, 0, FxVec3::new(r, 0, z));
        let dist = magnitude2(r, z);
        let band = (dist / 16384) % 4;
        let smooth = 65536 - (dist % 16384) * 4;
        let expected = Color::from_hex(palette[band as usize]).scale(smooth);
        assert_eq!(ring_shader(&f).0, expected);
    }
    // inside a band the color fades by 1 - frac(r / w)
    let f = frag_at(0, 0, FxVec3::new(8192, 0, 0));
    let c = ring_shader(&f).0;
    // 0xB0C4DE at half strength, truncated per channel
    assert_eq!((c.r, c.g, c.b), (0x58, 0x62, 0x6F));
}

#[test]
fn sun_ignores_normal_and_time() {
    let u1 = identity_uniforms(7, 0);
    let u2 = identity_uniforms(999, 123456);
    let f1 = frag_at(0, 0, FxVec3::new(1, 2, 3));
    let mut f2 = frag_at(5, 5, FxVec3::new(-100, 7, 9));
    f2.normal = FxVec3::new(-65536, 12345, 777);
    let a = select_shader(0, &f1, &u1);
    let b = select_shader(0, &f2, &u2);
    assert_eq!(a, b);
    assert_eq!(a, sun_shader().0);
    assert_eq!(sun_shader().1, 100);
}

#[test]
fn unknown_material_falls_back_to_sun() {
    let u = identity_uniforms(3, 9);
    let f = frag_at(2, 2, FxVec3::new(4, 5, 6));
    assert_eq!(select_shader(99, &f, &u), sun_shader().0);
}

#[test]
fn materials_are_deterministic() {
    let u = identity_uniforms(11, 5);
    let f = frag_at(1, 1, FxVec3::new(30000, -20000, 50000));
    for index in 0..9 {
        assert_eq!(select_shader(index, &f, &u), select_shader(index, &f, &u));
    }
}

#[test]
fn venus_blends_by_absolute_noise() {
    // the material is exactly base.lerp(cloud, |noise at 8x position|)
    let u = identity_uniforms(77, 0);
    let f = frag_at(0, 0, FxVec3::new(40000, -90000, 12345));
    let n = u.noise.get_noise_2d(fx_mul(40000, 8 * FX_ONE), fx_mul(-90000, 8 * FX_ONE));
    let expected = Color::new(218, 165, 32).lerp(&Color::new(255, 228, 181), n.abs());
    assert_eq!(orrery::shaders::venus_shader(&f, &u), expected);
}

#[test]
fn saturn_is_ambient_lifted_base() {
    // no diffuse term: the result is base * 0.2 added onto base
    let u = identity_uniforms(5, 0);
    let f = frag_at(0, 0, FxVec3::new(-70000, 130000, 0));
    let n = u.noise.get_noise_2d(fx_mul(-70000, 10 * FX_ONE), fx_mul(130000, 10 * FX_ONE));
    let lf = fx_clamp(n, 0, FX_ONE);
    let base = if lf < 32768 {
        Color::new(255, 225, 180).lerp(&Color::new(255, 200, 150), 2 * lf)
    } else {
        Color::new(255, 200, 150).lerp(&Color::new(240, 230, 210), 2 * (lf - 32768))
    };
    let expected = base.scale(13107).add(&base);
    assert_eq!(orrery::shaders::saturn_shader(&f, &u), expected);
}

#[test]
fn new_sun_light_fields() {
    let l = Light::new_sun();
    assert_eq!(l.position, FxVec3::new(0, 0, 0));
    assert_eq!(l.color, Color::new(255, 229, 179));
    assert_eq!(l.intensity, 98304);
    let l2 = Light::new(FxVec3::new(1, 2, 3), Color::new(4, 5, 6), 7);
    assert_eq!(l2.position, FxVec3::new(1, 2, 3));
    assert_eq!(l2.intensity, 7);
}

// vertex transform

#[test]
fn vertex_shader_identity_pipeline() {
    let u = identity_uniforms(21, 0);
    let v = flat_vertex(2 * FX_ONE, 3 * FX_ONE, 4 * FX_ONE, Color::new(1, 1, 1));
    let out = vertex_shader(&v, &u).expect("w is one, not zero");
    assert_eq!(out.transformed_position, FxVec3::new(2 * FX_ONE, 3 * FX_ONE, 4 * FX_ONE));
    assert_eq!(out.transformed_normal, FxVec3::new(0, 0, 0));
    assert_eq!(out.position, v.position);
    assert_eq!(out.color, v.color);
}

#[test]
fn vertex_shader_drops_zero_w() {
    let mut u = identity_uniforms(21, 0);
    // a projection that zeroes the homogeneous coordinate
    u.projection_matrix = FxMat4 {
        m00: FX_ONE, m01: 0, m02: 0, m03: 0,
        m10: 0, m11: FX_ONE, m12: 0, m13: 0,
        m20: 0, m21: 0, m22: FX_ONE, m23: 0,
        m30: 0, m31: 0, m32: 0, m33: 0,
    };
    let v = flat_vertex(FX_ONE, FX_ONE, FX_ONE, Color::new(1, 1, 1));
    assert!(vertex_shader(&v, &u).is_none());
}

// the whole pipeline

#[test]
fn render_sun_triangle() {
    let mut fb = Framebuffer::new(8, 8);
    fb.set_background_color(0x000000);
    fb.clear();
    let u = identity_uniforms(33, 0);
    let verts = vec![
        flat_vertex(0, 0, FX_ONE, Color::new(1, 1, 1)),
        flat_vertex(4 * FX_ONE, 0, FX_ONE, Color::new(1, 1, 1)),
        flat_vertex(0, 4 * FX_ONE, FX_ONE, Color::new(1, 1, 1)),
        // a leftover vertex: silently dropped
        flat_vertex(7 * FX_ONE, 7 * FX_ONE, FX_ONE, Color::new(1, 1, 1)),
    ];
    render(&mut fb, &u, &verts, 0);
    let sun_hex = sun_shader().0.to_hex();
    for y in 0..8 {
        for x in 0..8 {
            let i = y * 8 + x;
            if x + y <= 4 {
                assert_eq!(fb.buffer[i], sun_hex, "pixel ({}, {})", x, y);
                assert_eq!(fb.zbuffer[i], FX_ONE);
            } else {
                assert_eq!(fb.buffer[i], 0x000000);
                assert_eq!(fb.zbuffer[i], DEPTH_FAR);
            }
        }
    }
}

// drawing utilities

#[test]
fn draw_line_paints_bresenham_pixels() {
    let mut fb = Framebuffer::new(8, 8);
    fb.clear();
    fb.draw_line(1, 1, 4, 1, 0xFF00FF);
    // the endpoint itself is not painted, as in classic Bresenham loops
    for x in 0..8 {
        let painted = (1..4).contains(&x);
        assert_eq!(fb.buffer[8 + x] == 0xFF00FF, painted, "x = {}", x);
    }
    // depths untouched
    for i in 0..64 {
        assert_eq!(fb.zbuffer[i], DEPTH_FAR);
    }
}

#[test]
fn draw_char_matches_font_table() {
    let mut fb = Framebuffer::new(16, 16);
    fb.clear();
    fb.draw_char(0, 0, 'A', 0xFF0000, 1);
    let glyph = font8x8::BASIC_FONTS.get('A').expect("basic font has A");
    for (row, byte) in glyph.iter().enumerate() {
        for col in 0..8 {
            let expected = (byte >> col) & 1 == 1;
            let i = row * 16 + col;
            assert_eq!(fb.buffer[i] == 0xFF0000, expected, "row {} col {}", row, col);
        }
    }
}

#[test]
fn draw_text_advances_by_glyph_width() {
    let mut fb1 = Framebuffer::new(32, 8);
    fb1.clear();
    fb1.draw_text(0, 0, &['A', 'B'], 0x00FF00, 1);
    let mut fb2 = Framebuffer::new(32, 8);
    fb2.clear();
    fb2.draw_char(0, 0, 'A', 0x00FF00, 1);
    fb2.draw_char(8, 0, 'B', 0x00FF00, 1);
    assert_eq!(fb1.buffer, fb2.buffer);
    // and the text really paints something
    assert!(fb1.buffer.iter().any(|&c| c == 0x00FF00));
    assert!(font8x8::BASIC_FONTS.get('B').is_some());
}

#[test]
fn draw_circle_paints_symmetric_points() {
    let mut fb = Framebuffer::new(16, 16);
    fb.clear();
    fb.draw_circle(8, 8, 3, 0x0000FF);
    // the four axis-aligned extremes of the circle
    for (x, y) in [(11usize, 8usize), (5, 8), (8, 11), (8, 5)] {
        assert_eq!(fb.buffer[y * 16 + x], 0x0000FF, "at ({}, {})", x, y);
    }
    assert_eq!(fb.buffer[8 * 16 + 8], 0); // center untouched
}
