//! The vertex transform, the shader dispatch and the per-body material
//! functions.
//!
//! Every material is a pure function of the fragment, the shared
//! per-frame parameters and nothing else; each has a spec twin stating
//! its exact value. All arithmetic is Q16.16 fixed point: a float
//! constant of the classic formulation appears here as its Q16.16
//! truncation (0.5 is 32768, 0.1 is 6553, and so on).

use vstd::prelude::*;
use crate::color::{Color, lerp_s, scale_color_s, add_color_s, chan_of_fx_s, from_hex_s};
use crate::fixed::{fx_mul, fx_div, fx_add, fx_clamp, fx_mul_s, fx_div_s, fx_add_s, clamp_s};
use crate::fragment::Fragment;
use crate::light::Light;
use crate::noise::{noise2_s, noise3_s};
use crate::uniforms::Uniforms;
use crate::vecmat::{FxVec3, FxVec4, FxMat3, vec3_add_s, vec3_sub_s, vec3_scale_s, dot3_s,
    magnitude_s, magnitude2_s, normalize_s, mat4_mul_vec4_s, mat4_upper3_s, mat3_transpose_s,
    mat3_inverse_s, mat3_mul_vec3_s, magnitude2};
use crate::vertex::Vertex;

verus! {

/// The nonnegative part of a value.
pub open spec fn max0_s(v: int) -> int {
    if v >= 0 {
        v
    } else {
        0
    }
}

/// A value clamped to [0, 1] in Q16.16.
pub open spec fn clamp01_s(v: int) -> int {
    clamp_s(v, 0, 65536)
}

/// The absolute value.
pub open spec fn abs_s(v: int) -> int {
    if v >= 0 {
        v
    } else {
        -v
    }
}

/// A nonnegative times a nonnegative stays nonnegative through the
/// fixed-point product.
proof fn lemma_fx_mul_nonneg(a: int, b: int)
    requires
        a >= 0,
        b >= 0,
    ensures
        fx_mul_s(a, b) >= 0,
{
    assert(a * b >= 0) by (nonlinear_arith)
        requires
            a >= 0,
            b >= 0;
    assert((a * b) / 65536 >= 0);
}

/// The Lambertian point-light helper: the base color blended toward the
/// light's color by the diffuse weight, with inverse-quadratic
/// attenuation (k1 = 0.1, k2 = 0.01). The diffuse weight comes from the
/// normalized fragment normal and the normalized direction to the light.
pub open spec fn apply_lighting_s(base: Color, f: Fragment, l: Light) -> Color {
    let to_light = vec3_sub_s(l.position, f.vertex_position);
    let dir = normalize_s(to_light);
    let n = normalize_s(f.normal);
    let intensity = max0_s(dot3_s(n, dir));
    let dist = magnitude_s(to_light);
    let denom = fx_add_s(
        fx_add_s(65536, fx_mul_s(6553, dist)),
        fx_mul_s(655, fx_mul_s(dist, dist)),
    );
    let atten = fx_div_s(65536, denom);
    let effect = scale_color_s(l.color, fx_mul_s(fx_mul_s(intensity, l.intensity as int), atten));
    lerp_s(base, effect, intensity)
}

pub fn apply_lighting(base_color: Color, fragment: &Fragment, light: &Light) -> (r: Color)
    ensures
        r == apply_lighting_s(base_color, *fragment, *light),
{
    let to_light = light.position.sub(&fragment.vertex_position);
    let dir = to_light.normalize_or_zero();
    let n = fragment.normal.normalize_or_zero();
    let d = n.dot(&dir);
    let intensity: i64 = if d >= 0 {
        d
    } else {
        0
    };
    let dist = to_light.magnitude();
    let t1 = fx_mul(6553, dist);
    let t2 = fx_mul(655, fx_mul(dist, dist));
    proof {
        lemma_fx_mul_nonneg(6553, dist as int);
        lemma_fx_mul_nonneg(dist as int, dist as int);
        lemma_fx_mul_nonneg(655, fx_mul_s(dist as int, dist as int));
    }
    let denom = fx_add(fx_add(65536, t1), t2);
    let atten = fx_div(65536, denom);
    let effect = light.color.scale(fx_mul(fx_mul(intensity, light.intensity), atten));
    base_color.lerp(&effect, intensity)
}

/// The ring material: the radial distance of the reference position in
/// the (x, z) plane selects one of four palette bands, each 0.25 wide in
/// Q16.16, and the band's color fades with the position inside the band.
/// Lighting is ignored entirely.
pub open spec fn ring_shader_s(f: Fragment) -> Color {
    let r = magnitude2_s(f.vertex_position.x as int, f.vertex_position.z as int);
    let band = r / 16384;
    let color = ring_palette_s(band % 4);
    let smooth = 65536 - ((r % 16384) * 65536) / 16384;
    scale_color_s(color, smooth)
}

/// The four ring band colors.
pub open spec fn ring_palette_s(i: int) -> Color {
    if i == 0 {
        from_hex_s(0xB0C4DE)
    } else if i == 1 {
        from_hex_s(0x708090)
    } else if i == 2 {
        from_hex_s(0xA9A9A9)
    } else {
        from_hex_s(0xF5F5DC)
    }
}

pub fn ring_shader(fragment: &Fragment) -> (r: (Color, u32))
    ensures
        r.0 == ring_shader_s(*fragment),
        r.1 == 0,
{
    let dist = magnitude2(fragment.vertex_position.x, fragment.vertex_position.z);
    let band: i64 = ((dist as u64) / 16384) as i64;
    let rem: i64 = ((dist as u64) % 16384) as i64;
    let sel: u64 = (band as u64) % 4;
    let color = if sel == 0 {
        Color::from_hex(0xB0C4DE)
    } else if sel == 1 {
        Color::from_hex(0x708090)
    } else if sel == 2 {
        Color::from_hex(0xA9A9A9)
    } else {
        Color::from_hex(0xF5F5DC)
    };
    proof {
        assert(band == dist as int / 16384);
        assert(rem == dist as int % 16384);
        assert(sel == (dist as int / 16384) % 4);
        assert(rem * 65536 == 16384 * (rem * 4));
        vstd::arithmetic::div_mod::lemma_div_multiples_vanish(rem * 4, 16384);
    }
    let smooth: i64 = 65536 - rem * 4;
    (color.scale(smooth), 0)
}

/// The central body's color: a fixed warm base, from the fractions
/// (1.0, 0.9, 0.5) of the channel range.
pub open spec fn sun_color_s() -> Color {
    Color {
        r: chan_of_fx_s(65536) as u8,
        g: chan_of_fx_s(58982) as u8,
        b: chan_of_fx_s(32768) as u8,
    }
}

/// The central, self-luminous body: a fixed warm base color with a large
/// emission value. It ignores the fragment, the time and all lighting.
pub fn sun_shader() -> (r: (Color, u32))
    ensures
        r.0 == sun_color_s(),
        r.1 == 100,
{
    (Color::from_fx(65536, 58982, 32768), 100)
}

/// The banded-terrain material of the third orbiting body: a 3D noise
/// sample picks ocean, land or polar snow, and two moving 2D-displaced
/// cloud layers blend over the surface.
pub open spec fn earth_shader_s(f: Fragment, u: Uniforms) -> Color {
    let land = Color { r: 34, g: 139, b: 34 };
    let ocean = Color { r: 30, g: 144, b: 255 };
    let snow = Color { r: 255, g: 250, b: 250 };
    let cloud = Color { r: 255, g: 255, b: 255 };
    let p = f.vertex_position;
    let n = noise3_s(
        u.noise.seed,
        fx_mul_s(p.x as int, 983040) as i64,
        fx_mul_s(p.y as int, 983040) as i64,
        fx_mul_s(p.z as int, 983040) as i64,
    );
    let base = if n < -19660 {
        lerp_s(ocean, Color { r: 25, g: 105, b: 210 }, fx_div_s(n + 19660, 19660))
    } else if n > 45875 {
        lerp_s(land, snow, fx_div_s(n - 45875, 19660))
    } else {
        lerp_s(ocean, land, n + 19660)
    };
    let dx1 = fx_mul_s(
        noise2_s(u.noise.seed, fx_mul_s(p.x as int, 655360) as i64, fx_mul_s(p.y as int, 655360) as i64),
        19660,
    );
    let dz1 = fx_mul_s(
        noise2_s(u.noise.seed, fx_mul_s(p.z as int, 655360) as i64, fx_mul_s(p.y as int, 655360) as i64),
        19660,
    );
    let cn1 = noise3_s(
        u.noise.seed,
        fx_add_s(fx_mul_s(p.x as int, 655360), dx1) as i64,
        fx_mul_s(p.y as int, 655360) as i64,
        fx_add_s(fx_mul_s(p.z as int, 655360), dz1) as i64,
    );
    let op1 = clamp01_s(fx_add_s(fx_mul_s(cn1, 32768), 32768));
    let dx2 = fx_mul_s(
        noise2_s(u.noise.seed, fx_mul_s(p.x as int, 524288) as i64, fx_mul_s(p.y as int, 524288) as i64),
        26214,
    );
    let dz2 = fx_mul_s(
        noise2_s(u.noise.seed, fx_mul_s(p.z as int, 524288) as i64, fx_mul_s(p.y as int, 524288) as i64),
        26214,
    );
    let cn2 = noise3_s(
        u.noise.seed,
        fx_add_s(fx_mul_s(p.x as int, 524288), dx2) as i64,
        fx_mul_s(p.y as int, 524288) as i64,
        fx_add_s(fx_mul_s(p.z as int, 524288), dz2) as i64,
    );
    let op2 = clamp01_s(fx_add_s(fx_mul_s(cn2, 32768), 32768));
    let combined = add_color_s(scale_color_s(cloud, op1), scale_color_s(cloud, op2));
    lerp_s(base, combined, 32768)
}

pub fn earth_shader(fragment: &Fragment, uniforms: &Uniforms) -> (r: Color)
    ensures
        r == earth_shader_s(*fragment, *uniforms),
{
    let land = Color::new(34, 139, 34);
    let ocean = Color::new(30, 144, 255);
    let snow = Color::new(255, 250, 250);
    let cloud = Color::new(255, 255, 255);
    let p = fragment.vertex_position;
    let n = uniforms.noise.get_noise_3d(
        fx_mul(p.x, 983040),
        fx_mul(p.y, 983040),
        fx_mul(p.z, 983040),
    );
    let base = if n < -19660 {
        ocean.lerp(&Color::new(25, 105, 210), fx_div(n + 19660, 19660))
    } else if n > 45875 {
        land.lerp(&snow, fx_div(n - 45875, 19660))
    } else {
        ocean.lerp(&land, n + 19660)
    };
    let dx1 = fx_mul(
        uniforms.noise.get_noise_2d(fx_mul(p.x, 655360), fx_mul(p.y, 655360)),
        19660,
    );
    let dz1 = fx_mul(
        uniforms.noise.get_noise_2d(fx_mul(p.z, 655360), fx_mul(p.y, 655360)),
        19660,
    );
    let cn1 = uniforms.noise.get_noise_3d(
        fx_add(fx_mul(p.x, 655360), dx1),
        fx_mul(p.y, 655360),
        fx_add(fx_mul(p.z, 655360), dz1),
    );
    let op1 = fx_clamp(fx_add(fx_mul(cn1, 32768), 32768), 0, 65536);
    let dx2 = fx_mul(
        uniforms.noise.get_noise_2d(fx_mul(p.x, 524288), fx_mul(p.y, 524288)),
        26214,
    );
    let dz2 = fx_mul(
        uniforms.noise.get_noise_2d(fx_mul(p.z, 524288), fx_mul(p.y, 524288)),
        26214,
    );
    let cn2 = uniforms.noise.get_noise_3d(
        fx_add(fx_mul(p.x, 524288), dx2),
        fx_mul(p.y, 524288),
        fx_add(fx_mul(p.z, 524288), dz2),
    );
    let op2 = fx_clamp(fx_add(fx_mul(cn2, 32768), 32768), 0, 65536);
    let combined = cloud.scale(op1).add(&cloud.scale(op2));
    base.lerp(&combined, 32768)
}

/// The rust-colored material of the fourth orbiting body: noise blends
/// dark red, terracotta and bright orange; a fixed point light at
/// (0, 8, 9) adds diffuse shading over a 0.15 ambient floor.
pub open spec fn mars_shader_s(f: Fragment, u: Uniforms) -> Color {
    let dark_red = Color {
        r: chan_of_fx_s(26214) as u8,
        g: chan_of_fx_s(6553) as u8,
        b: chan_of_fx_s(6553) as u8,
    };
    let bright_orange = Color {
        r: chan_of_fx_s(52428) as u8,
        g: chan_of_fx_s(26214) as u8,
        b: chan_of_fx_s(6553) as u8,
    };
    let terracotta = Color {
        r: chan_of_fx_s(39321) as u8,
        g: chan_of_fx_s(19660) as u8,
        b: chan_of_fx_s(6553) as u8,
    };
    let n = noise2_s(u.noise.seed, f.vertex_position.x, f.vertex_position.y);
    let lf = clamp01_s(n);
    let base = if lf < 32768 {
        lerp_s(dark_red, terracotta, 2 * lf)
    } else {
        lerp_s(terracotta, bright_orange, 2 * (lf - 32768))
    };
    let light_pos = FxVec3 { x: 0, y: 524288, z: 589824 };
    let dir = normalize_s(vec3_sub_s(light_pos, f.vertex_position));
    let diffuse = max0_s(dot3_s(normalize_s(f.normal), dir));
    let lit = scale_color_s(base, diffuse);
    let ambient = scale_color_s(base, 9830);
    add_color_s(ambient, lit)
}

pub fn mars_shader(fragment: &Fragment, uniforms: &Uniforms) -> (r: (Color, u32))
    ensures
        r.0 == mars_shader_s(*fragment, *uniforms),
        r.1 == 0,
{
    let dark_red = Color::from_fx(26214, 6553, 6553);
    let bright_orange = Color::from_fx(52428, 26214, 6553);
    let terracotta = Color::from_fx(39321, 19660, 6553);
    let n = uniforms.noise.get_noise_2d(fragment.vertex_position.x, fragment.vertex_position.y);
    let lf = fx_clamp(n, 0, 65536);
    let base = if lf < 32768 {
        dark_red.lerp(&terracotta, 2 * lf)
    } else {
        terracotta.lerp(&bright_orange, 2 * (lf - 32768))
    };
    let light_pos = FxVec3::new(0, 524288, 589824);
    let dir = light_pos.sub(&fragment.vertex_position).normalize_or_zero();
    let d = fragment.normal.normalize_or_zero().dot(&dir);
    let diffuse: i64 = if d >= 0 {
        d
    } else {
        0
    };
    let lit = base.scale(diffuse);
    let ambient = base.scale(9830);
    (ambient.add(&lit), 0)
}

/// The pastel-banded material of the fifth orbiting body: noise blends
/// pastel pink, soft lilac and white; a fixed point light at (-10, 8, 9)
/// adds diffuse shading over a 0.15 ambient floor.
pub open spec fn jupiter_shader_s(f: Fragment, u: Uniforms) -> Color {
    let pastel_pink = Color {
        r: chan_of_fx_s(65536) as u8,
        g: chan_of_fx_s(46530) as u8,
        b: chan_of_fx_s(49807) as u8,
    };
    let soft_lilac = Color {
        r: chan_of_fx_s(57016) as u8,
        g: chan_of_fx_s(41287) as u8,
        b: chan_of_fx_s(57016) as u8,
    };
    let white = Color {
        r: chan_of_fx_s(65536) as u8,
        g: chan_of_fx_s(65536) as u8,
        b: chan_of_fx_s(65536) as u8,
    };
    let n = noise2_s(u.noise.seed, f.vertex_position.x, f.vertex_position.y);
    let lf = clamp01_s(n);
    let base = if lf < 32768 {
        lerp_s(pastel_pink, soft_lilac, 2 * lf)
    } else {
        lerp_s(soft_lilac, white, 2 * (lf - 32768))
    };
    let light_pos = FxVec3 { x: -655360i64, y: 524288, z: 589824 };
    let dir = normalize_s(vec3_sub_s(light_pos, f.vertex_position));
    let diffuse = max0_s(dot3_s(normalize_s(f.normal), dir));
    let lit = scale_color_s(base, diffuse);
    let ambient = scale_color_s(base, 9830);
    add_color_s(ambient, lit)
}

pub fn jupiter_shader(fragment: &Fragment, uniforms: &Uniforms) -> (r: Color)
    ensures
        r == jupiter_shader_s(*fragment, *uniforms),
{
    let pastel_pink = Color::from_fx(65536, 46530, 49807);
    let soft_lilac = Color::from_fx(57016, 41287, 57016);
    let white = Color::from_fx(65536, 65536, 65536);
    let n = uniforms.noise.get_noise_2d(fragment.vertex_position.x, fragment.vertex_position.y);
    let lf = fx_clamp(n, 0, 65536);
    let base = if lf < 32768 {
        pastel_pink.lerp(&soft_lilac, 2 * lf)
    } else {
        soft_lilac.lerp(&white, 2 * (lf - 32768))
    };
    let light_pos = FxVec3::new(-655360, 524288, 589824);
    let dir = light_pos.sub(&fragment.vertex_position).normalize_or_zero();
    let d = fragment.normal.normalize_or_zero().dot(&dir);
    let diffuse: i64 = if d >= 0 {
        d
    } else {
        0
    };
    let lit = base.scale(diffuse);
    let ambient = base.scale(9830);
    ambient.add(&lit)
}

/// The warm-banded material of the sixth orbiting body: noise blends warm
/// yellow, soft orange and light beige; no diffuse term, only a 0.2
/// ambient lift over the base color.
pub open spec fn saturn_shader_s(f: Fragment, u: Uniforms) -> Color {
    let warm_yellow = Color { r: 255, g: 225, b: 180 };
    let soft_orange = Color { r: 255, g: 200, b: 150 };
    let light_beige = Color { r: 240, g: 230, b: 210 };
    let n = noise2_s(
        u.noise.seed,
        fx_mul_s(f.vertex_position.x as int, 655360) as i64,
        fx_mul_s(f.vertex_position.y as int, 655360) as i64,
    );
    let lf = clamp01_s(n);
    let base = if lf < 32768 {
        lerp_s(warm_yellow, soft_orange, 2 * lf)
    } else {
        lerp_s(soft_orange, light_beige, 2 * (lf - 32768))
    };
    let ambient = scale_color_s(base, 13107);
    add_color_s(ambient, base)
}

pub fn saturn_shader(fragment: &Fragment, uniforms: &Uniforms) -> (r: Color)
    ensures
        r == saturn_shader_s(*fragment, *uniforms),
{
    let warm_yellow = Color::new(255, 225, 180);
    let soft_orange = Color::new(255, 200, 150);
    let light_beige = Color::new(240, 230, 210);
    let n = uniforms.noise.get_noise_2d(
        fx_mul(fragment.vertex_position.x, 655360),
        fx_mul(fragment.vertex_position.y, 655360),
    );
    let lf = fx_clamp(n, 0, 65536);
    let base = if lf < 32768 {
        warm_yellow.lerp(&soft_orange, 2 * lf)
    } else {
        soft_orange.lerp(&light_beige, 2 * (lf - 32768))
    };
    let ambient = base.scale(13107);
    ambient.add(&base)
}

/// The cratered material of the first orbiting body: noise picks crater,
/// base or highlight grey; diffuse light from the central body at the
/// origin with inverse-quadratic attenuation (k1 = 0.1, k2 = 0.02) over a
/// 0.15 ambient floor.
pub open spec fn mercury_shader_s(f: Fragment, u: Uniforms) -> Color {
    let base = Color { r: 169, g: 169, b: 169 };
    let crater = Color { r: 105, g: 105, b: 105 };
    let highlight = Color { r: 200, g: 200, b: 200 };
    let n = noise2_s(
        u.noise.seed,
        fx_mul_s(f.vertex_position.x as int, 1310720) as i64,
        fx_mul_s(f.vertex_position.y as int, 1310720) as i64,
    );
    let base_frag = if n < -13107 {
        lerp_s(crater, base, clamp01_s(n + 13107))
    } else {
        lerp_s(base, highlight, clamp01_s(n))
    };
    let sun_pos = FxVec3 { x: 0, y: 0, z: 0 };
    let to_sun = vec3_sub_s(sun_pos, f.vertex_position);
    let dir = normalize_s(to_sun);
    let diffuse = max0_s(dot3_s(normalize_s(f.normal), dir));
    let dist = magnitude_s(to_sun);
    let denom = fx_add_s(
        fx_add_s(65536, fx_mul_s(6553, dist)),
        fx_mul_s(1310, fx_mul_s(dist, dist)),
    );
    let atten = fx_div_s(65536, denom);
    let lit = scale_color_s(scale_color_s(base_frag, diffuse), atten);
    let ambient = scale_color_s(base_frag, 9830);
    add_color_s(ambient, lit)
}

pub fn mercury_shader(fragment: &Fragment, uniforms: &Uniforms) -> (r: Color)
    ensures
        r == mercury_shader_s(*fragment, *uniforms),
{
    let base = Color::new(169, 169, 169);
    let crater = Color::new(105, 105, 105);
    let highlight = Color::new(200, 200, 200);
    let n = uniforms.noise.get_noise_2d(
        fx_mul(fragment.vertex_position.x, 1310720),
        fx_mul(fragment.vertex_position.y, 1310720),
    );
    let base_frag = if n < -13107 {
        crater.lerp(&base, fx_clamp(n + 13107, 0, 65536))
    } else {
        base.lerp(&highlight, fx_clamp(n, 0, 65536))
    };
    let sun_pos = FxVec3::new(0, 0, 0);
    let to_sun = sun_pos.sub(&fragment.vertex_position);
    let dir = to_sun.normalize_or_zero();
    let d = fragment.normal.normalize_or_zero().dot(&dir);
    let diffuse: i64 = if d >= 0 {
        d
    } else {
        0
    };
    let dist = to_sun.magnitude();
    let t1 = fx_mul(6553, dist);
    let t2 = fx_mul(1310, fx_mul(dist, dist));
    proof {
        lemma_fx_mul_nonneg(6553, dist as int);
        lemma_fx_mul_nonneg(dist as int, dist as int);
        lemma_fx_mul_nonneg(1310, fx_mul_s(dist as int, dist as int));
    }
    let denom = fx_add(fx_add(65536, t1), t2);
    let atten = fx_div(65536, denom);
    let lit = base_frag.scale(diffuse).scale(atten);
    let ambient = base_frag.scale(9830);
    ambient.add(&lit)
}

/// The veiled material of the second orbiting body: the base gold blended
/// toward cream clouds by the absolute noise value. No lighting of its
/// own.
pub open spec fn venus_shader_s(f: Fragment, u: Uniforms) -> Color {
    let base = Color { r: 218, g: 165, b: 32 };
    let cloud = Color { r: 255, g: 228, b: 181 };
    let n = noise2_s(
        u.noise.seed,
        fx_mul_s(f.vertex_position.x as int, 524288) as i64,
        fx_mul_s(f.vertex_position.y as int, 524288) as i64,
    );
    lerp_s(base, cloud, abs_s(n))
}

pub fn venus_shader(fragment: &Fragment, uniforms: &Uniforms) -> (r: Color)
    ensures
        r == venus_shader_s(*fragment, *uniforms),
{
    let base = Color::new(218, 165, 32);
    let cloud = Color::new(255, 228, 181);
    let n = uniforms.noise.get_noise_2d(
        fx_mul(fragment.vertex_position.x, 524288),
        fx_mul(fragment.vertex_position.y, 524288),
    );
    let a: i64 = if n >= 0 {
        n
    } else {
        -n
    };
    base.lerp(&cloud, a)
}

/// The drifting-bands material of the seventh orbiting body: the noise
/// query moves with the time counter (a 0.1 step per tick), blending
/// light blue, cyan and ice white; diffuse light from (-20, 8, 9) with
/// inverse-quadratic attenuation (k1 = 0.1, k2 = 0.02) over a 0.2 ambient
/// floor.
pub open spec fn uranus_shader_s(f: Fragment, u: Uniforms) -> Color {
    let light_blue = Color { r: 173, g: 216, b: 230 };
    let cyan = Color { r: 0, g: 255, b: 255 };
    let white = Color { r: 240, g: 248, b: 255 };
    let n = noise2_s(
        u.noise.seed,
        fx_add_s(fx_mul_s(f.vertex_position.x as int, 524288), (u.time as int) * 6553) as i64,
        fx_mul_s(f.vertex_position.y as int, 524288) as i64,
    );
    let lf = clamp01_s(n);
    let base = if lf < 32768 {
        lerp_s(light_blue, cyan, 2 * lf)
    } else {
        lerp_s(cyan, white, 2 * (lf - 32768))
    };
    let sun_pos = FxVec3 { x: -1310720i64, y: 524288, z: 589824 };
    let to_sun = vec3_sub_s(sun_pos, f.vertex_position);
    let dir = normalize_s(to_sun);
    let diffuse = max0_s(dot3_s(normalize_s(f.normal), dir));
    let dist = magnitude_s(to_sun);
    let denom = fx_add_s(
        fx_add_s(65536, fx_mul_s(6553, dist)),
        fx_mul_s(1310, fx_mul_s(dist, dist)),
    );
    let atten = fx_div_s(65536, denom);
    let lit = scale_color_s(scale_color_s(base, diffuse), atten);
    let ambient = scale_color_s(base, 13107);
    add_color_s(ambient, lit)
}

pub fn uranus_shader(fragment: &Fragment, uniforms: &Uniforms) -> (r: Color)
    ensures
        r == uranus_shader_s(*fragment, *uniforms),
{
    let light_blue = Color::new(173, 216, 230);
    let cyan = Color::new(0, 255, 255);
    let white = Color::new(240, 248, 255);
    let drift: i64 = (uniforms.time as i64) * 6553;
    let n = uniforms.noise.get_noise_2d(
        fx_add(fx_mul(fragment.vertex_position.x, 524288), drift),
        fx_mul(fragment.vertex_position.y, 524288),
    );
    let lf = fx_clamp(n, 0, 65536);
    let base = if lf < 32768 {
        light_blue.lerp(&cyan, 2 * lf)
    } else {
        cyan.lerp(&white, 2 * (lf - 32768))
    };
    let sun_pos = FxVec3::new(-1310720, 524288, 589824);
    let to_sun = sun_pos.sub(&fragment.vertex_position);
    let dir = to_sun.normalize_or_zero();
    let d = fragment.normal.normalize_or_zero().dot(&dir);
    let diffuse: i64 = if d >= 0 {
        d
    } else {
        0
    };
    let dist = to_sun.magnitude();
    let t1 = fx_mul(6553, dist);
    let t2 = fx_mul(1310, fx_mul(dist, dist));
    proof {
        lemma_fx_mul_nonneg(6553, dist as int);
        lemma_fx_mul_nonneg(dist as int, dist as int);
        lemma_fx_mul_nonneg(1310, fx_mul_s(dist as int, dist as int));
    }
    let denom = fx_add(fx_add(65536, t1), t2);
    let atten = fx_div(65536, denom);
    let lit = base.scale(diffuse).scale(atten);
    let ambient = base.scale(13107);
    ambient.add(&lit)
}

/// The dispatch table: index 0 is the central body, 1 to 7 the orbiting
/// bodies (lit by the central light), 8 the rings; every other index
/// falls back to the central body's material.
pub open spec fn select_shader_s(index: int, f: Fragment, u: Uniforms) -> Color {
    let sun_light = Light {
        position: FxVec3 { x: 0, y: 0, z: 0 },
        color: Color { r: 255, g: 255, b: 200 },
        intensity: 196608,
    };
    if index == 0 {
        sun_color_s()
    } else if index == 1 {
        apply_lighting_s(mercury_shader_s(f, u), f, sun_light)
    } else if index == 2 {
        apply_lighting_s(venus_shader_s(f, u), f, sun_light)
    } else if index == 3 {
        apply_lighting_s(earth_shader_s(f, u), f, sun_light)
    } else if index == 4 {
        apply_lighting_s(mars_shader_s(f, u), f, sun_light)
    } else if index == 5 {
        apply_lighting_s(jupiter_shader_s(f, u), f, sun_light)
    } else if index == 6 {
        apply_lighting_s(saturn_shader_s(f, u), f, sun_light)
    } else if index == 7 {
        apply_lighting_s(uranus_shader_s(f, u), f, sun_light)
    } else if index == 8 {
        ring_shader_s(f)
    } else {
        sun_color_s()
    }
}

/// Pick and run the material for a body index; unknown indices fall back
/// to the central body's material. Total over all integer inputs.
pub fn select_shader(index: usize, fragment: &Fragment, uniforms: &Uniforms) -> (r: Color)
    ensures
        r == select_shader_s(index as int, *fragment, *uniforms),
{
    let sun_light = Light::new(FxVec3::new(0, 0, 0), Color::new(255, 255, 200), 196608);
    if index == 0 {
        sun_shader().0
    } else if index == 1 {
        apply_lighting(mercury_shader(fragment, uniforms), fragment, &sun_light)
    } else if index == 2 {
        apply_lighting(venus_shader(fragment, uniforms), fragment, &sun_light)
    } else if index == 3 {
        apply_lighting(earth_shader(fragment, uniforms), fragment, &sun_light)
    } else if index == 4 {
        apply_lighting(mars_shader(fragment, uniforms).0, fragment, &sun_light)
    } else if index == 5 {
        apply_lighting(jupiter_shader(fragment, uniforms), fragment, &sun_light)
    } else if index == 6 {
        apply_lighting(saturn_shader(fragment, uniforms), fragment, &sun_light)
    } else if index == 7 {
        apply_lighting(uranus_shader(fragment, uniforms), fragment, &sun_light)
    } else if index == 8 {
        ring_shader(fragment).0
    } else {
        sun_shader().0
    }
}

/// The central body's output is a constant: it depends neither on the
/// fragment (normal included) nor on the time or any other shared
/// parameter.
pub proof fn lemma_sun_ignores_everything(f1: Fragment, u1: Uniforms, f2: Fragment, u2: Uniforms)
    ensures
        select_shader_s(0, f1, u1) == select_shader_s(0, f2, u2),
        select_shader_s(0, f1, u1) == sun_color_s(),
{
}

/// The position displaced along the vertex's own normal by the noise
/// field sampled at five times the object-space position, scaled by the
/// 0.5 relief amplitude.
pub open spec fn displaced_s(v: Vertex, u: Uniforms) -> FxVec3 {
    let d = noise3_s(
        u.noise.seed,
        fx_mul_s(v.position.x as int, 327680) as i64,
        fx_mul_s(v.position.y as int, 327680) as i64,
        fx_mul_s(v.position.z as int, 327680) as i64,
    );
    vec3_add_s(v.position, vec3_scale_s(v.normal, fx_mul_s(d, 32768)))
}

/// The displaced position taken through model, view and projection, as a
/// homogeneous clip-space vector.
pub open spec fn clip_s(v: Vertex, u: Uniforms) -> FxVec4 {
    let p = displaced_s(v, u);
    mat4_mul_vec4_s(
        u.projection_matrix,
        mat4_mul_vec4_s(
            u.view_matrix,
            mat4_mul_vec4_s(u.model_matrix, FxVec4 { x: p.x, y: p.y, z: p.z, w: 65536 }),
        ),
    )
}

/// The vertex the transform yields when the clip-space w is not zero:
/// screen position through perspective divide and viewport, and the
/// normal taken through the inverse transpose of the model's linear part
/// (the identity when that matrix is singular).
pub open spec fn vertex_shader_some_s(v: Vertex, u: Uniforms) -> Vertex {
    let c = clip_s(v, u);
    let ndc = FxVec4 {
        x: fx_div_s(c.x as int, c.w as int) as i64,
        y: fx_div_s(c.y as int, c.w as int) as i64,
        z: fx_div_s(c.z as int, c.w as int) as i64,
        w: 65536,
    };
    let sp = mat4_mul_vec4_s(u.viewport_matrix, ndc);
    let nm = mat3_inverse_s(mat3_transpose_s(mat4_upper3_s(u.model_matrix)));
    Vertex {
        position: v.position,
        normal: v.normal,
        tex_coords: v.tex_coords,
        color: v.color,
        transformed_position: FxVec3 { x: sp.x, y: sp.y, z: sp.z },
        transformed_normal: mat3_mul_vec3_s(nm, v.normal),
    }
}

/// Transform one vertex: displace it along its normal by the noise
/// field, run it through model, view, projection and the perspective
/// divide, map it to screen space, and recompute its shading normal. A
/// vertex whose clip-space w is zero is dropped (`None`) rather than
/// divided.
pub fn vertex_shader(vertex: &Vertex, uniforms: &Uniforms) -> (r: Option<Vertex>)
    ensures
        r is Some <==> clip_s(*vertex, *uniforms).w != 0,
        r is Some ==> r.unwrap() == vertex_shader_some_s(*vertex, *uniforms),
{
    let d = uniforms.noise.get_noise_3d(
        fx_mul(vertex.position.x, 327680),
        fx_mul(vertex.position.y, 327680),
        fx_mul(vertex.position.z, 327680),
    );
    let displaced = vertex.position.add(&vertex.normal.scale(fx_mul(d, 32768)));
    let local = FxVec4 { x: displaced.x, y: displaced.y, z: displaced.z, w: 65536 };
    let world = uniforms.model_matrix.mul_vec4(&local);
    let view = uniforms.view_matrix.mul_vec4(&world);
    let clip = uniforms.projection_matrix.mul_vec4(&view);
    if clip.w == 0 {
        return None;
    }
    let ndc = FxVec4 {
        x: fx_div(clip.x, clip.w),
        y: fx_div(clip.y, clip.w),
        z: fx_div(clip.z, clip.w),
        w: 65536,
    };
    let sp = uniforms.viewport_matrix.mul_vec4(&ndc);
    let nm = uniforms.model_matrix.upper3().transpose().inverse_or_identity();
    Some(
        Vertex {
            position: vertex.position,
            normal: vertex.normal,
            tex_coords: vertex.tex_coords,
            color: vertex.color,
            transformed_position: FxVec3 { x: sp.x, y: sp.y, z: sp.z },
            transformed_normal: nm.mul_vec3(&vertex.normal),
        },
    )
}

} // verus!
