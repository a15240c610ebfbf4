//! The frame driver: vertices through the vertex transform, grouped in
//! threes into triangles (leftover vertices are dropped), rasterized,
//! shaded and composited into the framebuffer under the depth test.

use vstd::prelude::*;
use crate::color::to_hex_s;
use crate::fragment::Fragment;
use crate::framebuffer::{Framebuffer, FbView, fb_wf, point_s, with_current_s};
use crate::shaders::{vertex_shader, select_shader, select_shader_s, clip_s, vertex_shader_some_s};
use crate::triangle::{triangle, raster_ok, raster_ok_s, raster_s, RASTER_EXTENT_LIM};
use crate::uniforms::Uniforms;
use crate::vertex::Vertex;

verus! {

/// One fragment shaded and written: the pixel bounds check, the shader
/// dispatch, and the depth-tested point write with the shaded color.
pub open spec fn shade_write_s(v: FbView, f: Fragment, index: int, u: Uniforms) -> FbView {
    if (f.x as int) < v.width && (f.y as int) < v.height {
        point_s(
            with_current_s(v, to_hex_s(select_shader_s(index, f, u)) as u32),
            f.x as int,
            f.y as int,
            f.depth,
        )
    } else {
        v
    }
}

/// A fragment sequence shaded and written in order.
pub open spec fn write_frags_s(v: FbView, frags: Seq<Fragment>, index: int, u: Uniforms) -> FbView
    decreases frags.len(),
{
    if frags.len() == 0 {
        v
    } else {
        shade_write_s(write_frags_s(v, frags.drop_last(), index, u), frags.last(), index, u)
    }
}

/// The vertex transform over a whole mesh: each vertex maps to its
/// transformed value, or to nothing when its clip-space w is zero.
pub open spec fn transformed_s(verts: Seq<Vertex>, u: Uniforms) -> Seq<Option<Vertex>> {
    Seq::new(
        verts.len(),
        |i: int|
            if clip_s(verts[i], u).w != 0 {
                Some(vertex_shader_some_s(verts[i], u))
            } else {
                None
            },
    )
}

/// The fragments of the i-th triangle (vertices 3i, 3i+1, 3i+2): the
/// rasterized stream when all three vertices survived the transform and
/// lie in the rasterizer's working range, nothing otherwise.
pub open spec fn tri_frags_s(
    tv: Seq<Option<Vertex>>,
    i: int,
    width: int,
    height: int,
) -> Seq<Fragment> {
    if tv[3 * i] is Some && tv[3 * i + 1] is Some && tv[3 * i + 2] is Some {
        let a = tv[3 * i].unwrap();
        let b = tv[3 * i + 1].unwrap();
        let c = tv[3 * i + 2].unwrap();
        if raster_ok_s(a) && raster_ok_s(b) && raster_ok_s(c) {
            raster_s(a, b, c, width, height)
        } else {
            Seq::empty()
        }
    } else {
        Seq::empty()
    }
}

/// The first n triangles rendered in order onto the view.
pub open spec fn render_tris_s(
    v: FbView,
    tv: Seq<Option<Vertex>>,
    index: int,
    u: Uniforms,
    n: int,
) -> FbView
    decreases n,
{
    if n <= 0 {
        v
    } else {
        write_frags_s(
            render_tris_s(v, tv, index, u, n - 1),
            tri_frags_s(tv, n - 1, v.width, v.height),
            index,
            u,
        )
    }
}

/// A whole draw call: every third of the vertex sequence becomes one
/// triangle; one or two leftover vertices are silently dropped.
pub open spec fn render_s(v: FbView, verts: Seq<Vertex>, index: int, u: Uniforms) -> FbView {
    render_tris_s(v, transformed_s(verts, u), index, u, verts.len() as int / 3)
}

/// Render one mesh instance with one material index into the
/// framebuffer: transform, rasterize, shade, depth-test and write, as
/// `render_s` states.
#[verifier::loop_isolation(false)]
#[verifier::rlimit(100)]
pub fn render(
    framebuffer: &mut Framebuffer,
    uniforms: &Uniforms,
    vertex_array: &[Vertex],
    index: usize,
)
    requires
        fb_wf(old(framebuffer)@),
        old(framebuffer).width <= RASTER_EXTENT_LIM,
        old(framebuffer).height <= RASTER_EXTENT_LIM,
    ensures
        final(framebuffer)@ == render_s(old(framebuffer)@, vertex_array@, index as int, *uniforms),
        fb_wf(final(framebuffer)@),
        final(framebuffer).width == old(framebuffer).width,
        final(framebuffer).height == old(framebuffer).height,
{
    let ghost u = *uniforms;
    let ghost tv = transformed_s(vertex_array@, *uniforms);
    let n = vertex_array.len();
    let mut transformed: Vec<Option<Vertex>> = Vec::new();
    let mut i: usize = 0;
    while i < n
        invariant
            i <= n,
            transformed@.len() == i,
            forall|j: int| 0 <= j < i ==> transformed@[j] == tv[j],
        decreases n - i,
    {
        let t = vertex_shader(&vertex_array[i], uniforms);
        proof {
            match t {
                Some(x) => {
                    assert(t.unwrap() == x);
                },
                None => {},
            }
        }
        transformed.push(t);
        i += 1;
    }
    proof {
        assert(transformed@ =~= tv);
    }
    let ntris = n / 3;
    let mut t: usize = 0;
    while t < ntris
        invariant
            t <= ntris,
            framebuffer@ == render_tris_s(old(framebuffer)@, tv, index as int, u, t as int),
            fb_wf(framebuffer@),
            framebuffer.width == old(framebuffer).width,
            framebuffer.height == old(framebuffer).height,
        decreases ntris - t,
    {
        proof {
            assert(3 * (n as int / 3) <= n as int);
            assert(3 * t as int + 2 < n as int);
        }
        let oa = transformed[3 * t];
        let ob = transformed[3 * t + 1];
        let oc = transformed[3 * t + 2];
        let ghost frag_seq = tri_frags_s(tv, t as int, old(framebuffer)@.width, old(framebuffer)@.height);
        match (oa, ob, oc) {
            (Some(va), Some(vb), Some(vc)) => {
                if raster_ok(&va) && raster_ok(&vb) && raster_ok(&vc) {
                    let frags = triangle(&va, &vb, &vc, framebuffer.width, framebuffer.height);
                    proof {
                        assert(frags@ == frag_seq);
                    }
                    let ghost fb_tri = framebuffer@;
                    let m = frags.len();
                    let mut k: usize = 0;
                    proof {
                        assert(frags@.take(0) =~= Seq::<Fragment>::empty());
                    }
                    while k < m
                        invariant
                            k <= m,
                            framebuffer@ == write_frags_s(fb_tri, frags@.take(k as int), index as int, u),
                            fb_wf(framebuffer@),
                            framebuffer.width == old(framebuffer).width,
                            framebuffer.height == old(framebuffer).height,
                        decreases m - k,
                    {
                        let f = frags[k];
                        if f.x < framebuffer.width && f.y < framebuffer.height {
                            let shaded = select_shader(index, &f, uniforms);
                            let color = shaded.to_hex();
                            framebuffer.set_current_color(color);
                            framebuffer.point(f.x, f.y, f.depth);
                        }
                        proof {
                            assert(frags@.take(k as int + 1).drop_last() =~= frags@.take(k as int));
                            assert(frags@.take(k as int + 1).last() == frags@[k as int]);
                        }
                        k += 1;
                    }
                    proof {
                        assert(frags@.take(m as int) =~= frags@);
                    }
                } else {
                    proof {
                        assert(frag_seq =~= Seq::<Fragment>::empty());
                    }
                }
            },
            _ => {
                proof {
                    assert(frag_seq =~= Seq::<Fragment>::empty());
                }
            },
        }
        t += 1;
    }
}

} // verus!
