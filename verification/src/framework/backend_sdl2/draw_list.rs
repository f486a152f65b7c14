//! The interpreter of the UI's draw lists. It walks the triangles of each
//! run and plans what the canvas is to do: two triangles that make up an
//! axis-aligned rectangle become one textured copy, any other triangle is
//! filled.

use vstd::prelude::*;

use crate::common::{Color, Float32, Point, Rect};
use crate::framework::ui::{DrawCmd, DrawCmdParams, DrawData, DrawList, DrawVert};

verus! {

/// The least of three numbers, as a chain of comparisons finds it: `x` if
/// it is less than both others, else the lesser of `y` and `z`, and `z`
/// where those two do not compare.
pub open spec fn spec_min3(x: Float32, y: Float32, z: Float32) -> Float32 {
    if x.spec_lt(y) && x.spec_lt(z) {
        x
    } else if y.spec_lt(z) {
        y
    } else {
        z
    }
}

#[verifier::when_used_as_spec(spec_min3)]
pub fn min3(x: Float32, y: Float32, z: Float32) -> (least: Float32)
    ensures
        least == spec_min3(x, y, z),
{
    if x.lt(y) && x.lt(z) {
        x
    } else if y.lt(z) {
        y
    } else {
        z
    }
}

/// The greatest of three numbers, found as `spec_min3` finds the least.
pub open spec fn spec_max3(x: Float32, y: Float32, z: Float32) -> Float32 {
    if x.spec_gt(y) && x.spec_gt(z) {
        x
    } else if y.spec_gt(z) {
        y
    } else {
        z
    }
}

#[verifier::when_used_as_spec(spec_max3)]
pub fn max3(x: Float32, y: Float32, z: Float32) -> (greatest: Float32)
    ensures
        greatest == spec_max3(x, y, z),
{
    if x.gt(y) && x.gt(z) {
        x
    } else if y.gt(z) {
        y
    } else {
        z
    }
}

/// Of three numbers, `min3` is one of them and no greater than any, and
/// `max3` is one of them and no less than any.
pub proof fn lemma_min3_max3_bound(x: Float32, y: Float32, z: Float32)
    requires
        !x.is_nan(),
        !y.is_nan(),
        !z.is_nan(),
    ensures
        min3(x, y, z) == x || min3(x, y, z) == y || min3(x, y, z) == z,
        min3(x, y, z).spec_le(x) && min3(x, y, z).spec_le(y) && min3(x, y, z).spec_le(z),
        max3(x, y, z) == x || max3(x, y, z) == y || max3(x, y, z) == z,
        x.spec_le(max3(x, y, z)) && y.spec_le(max3(x, y, z)) && z.spec_le(max3(x, y, z)),
{
}

/// The box around three points: from the least of their coordinates to
/// the greatest.
pub open spec fn spec_box_around(a: Point, b: Point, c: Point) -> Rect<Float32> {
    Rect {
        left: min3(a.x, b.x, c.x),
        top: min3(a.y, b.y, c.y),
        right: max3(a.x, b.x, c.x),
        bottom: max3(a.y, b.y, c.y),
    }
}

#[verifier::when_used_as_spec(spec_box_around)]
pub fn box_around(a: Point, b: Point, c: Point) -> (around: Rect<Float32>)
    ensures
        around == spec_box_around(a, b, c),
{
    Rect {
        left: min3(a.x, b.x, c.x),
        top: min3(a.y, b.y, c.y),
        right: max3(a.x, b.x, c.x),
        bottom: max3(a.y, b.y, c.y),
    }
}

/// Whether `p` lies in the box, its edges included.
pub open spec fn inside(p: Point, around: Rect<Float32>) -> bool {
    around.left.spec_le(p.x) && p.x.spec_le(around.right) && around.top.spec_le(p.y)
        && p.y.spec_le(around.bottom)
}

/// The box around three points holds each of them, and each of its edges
/// passes through one of them. Points with a coordinate that is not a
/// number have no such box.
pub proof fn lemma_box_around(a: Point, b: Point, c: Point)
    requires
        !a.x.is_nan() && !b.x.is_nan() && !c.x.is_nan(),
        !a.y.is_nan() && !b.y.is_nan() && !c.y.is_nan(),
    ensures
        inside(a, box_around(a, b, c)),
        inside(b, box_around(a, b, c)),
        inside(c, box_around(a, b, c)),
        box_around(a, b, c).left == a.x || box_around(a, b, c).left == b.x || box_around(
            a,
            b,
            c,
        ).left == c.x,
        box_around(a, b, c).right == a.x || box_around(a, b, c).right == b.x || box_around(
            a,
            b,
            c,
        ).right == c.x,
        box_around(a, b, c).top == a.y || box_around(a, b, c).top == b.y || box_around(
            a,
            b,
            c,
        ).top == c.y,
        box_around(a, b, c).bottom == a.y || box_around(a, b, c).bottom == b.y || box_around(
            a,
            b,
            c,
        ).bottom == c.y,
{
}

/// Whether `p` is one of the four corners of the box.
pub open spec fn spec_at_corner(p: Point, around: Rect<Float32>) -> bool {
    (p.x.spec_same(around.left) || p.x.spec_same(around.right)) && (p.y.spec_same(around.top)
        || p.y.spec_same(around.bottom))
}

#[verifier::when_used_as_spec(spec_at_corner)]
pub fn at_corner(p: Point, around: Rect<Float32>) -> (yes: bool)
    ensures
        yes == spec_at_corner(p, around),
{
    (p.x.same(around.left) || p.x.same(around.right)) && (p.y.same(around.top) || p.y.same(
        around.bottom,
    ))
}

/// Whether two triangles make up an axis-aligned rectangle: each of the six
/// vertices stands at a corner of the box around the first triangle.
pub open spec fn spec_forms_quad(
    v1: DrawVert,
    v2: DrawVert,
    v3: DrawVert,
    v4: DrawVert,
    v5: DrawVert,
    v6: DrawVert,
) -> bool {
    let around = box_around(v1.pos, v2.pos, v3.pos);
    at_corner(v1.pos, around) && at_corner(v2.pos, around) && at_corner(v3.pos, around)
        && at_corner(v4.pos, around) && at_corner(v5.pos, around) && at_corner(v6.pos, around)
}

#[verifier::when_used_as_spec(spec_forms_quad)]
pub fn forms_quad(
    v1: DrawVert,
    v2: DrawVert,
    v3: DrawVert,
    v4: DrawVert,
    v5: DrawVert,
    v6: DrawVert,
) -> (yes: bool)
    ensures
        yes == spec_forms_quad(v1, v2, v3, v4, v5, v6),
{
    let around = box_around(v1.pos, v2.pos, v3.pos);
    at_corner(v1.pos, around) && at_corner(v2.pos, around) && at_corner(v3.pos, around)
        && at_corner(v4.pos, around) && at_corner(v5.pos, around) && at_corner(v6.pos, around)
}

/// Where two triangles form a quad, the box around the first triangle is
/// the box around all six vertices: it holds each of them.
pub proof fn lemma_quad_box_holds_all(
    v1: DrawVert,
    v2: DrawVert,
    v3: DrawVert,
    v4: DrawVert,
    v5: DrawVert,
    v6: DrawVert,
)
    requires
        forms_quad(v1, v2, v3, v4, v5, v6),
    ensures
        inside(v1.pos, box_around(v1.pos, v2.pos, v3.pos)),
        inside(v2.pos, box_around(v1.pos, v2.pos, v3.pos)),
        inside(v3.pos, box_around(v1.pos, v2.pos, v3.pos)),
        inside(v4.pos, box_around(v1.pos, v2.pos, v3.pos)),
        inside(v5.pos, box_around(v1.pos, v2.pos, v3.pos)),
        inside(v6.pos, box_around(v1.pos, v2.pos, v3.pos)),
{
}

/// A copy of part of a texture to a rectangle of the screen.
#[derive(Debug, Clone, Copy, PartialEq, Eq)]
pub struct TexturedRect {
    pub texture_id: usize,
    /// Width and height of the texture in pixels.
    pub texture_size: (u16, u16),
    /// The part to copy, each coordinate a fraction of the texture's size.
    pub uv: Rect<Float32>,
    /// Where it goes on the screen.
    pub dest: Rect<Float32>,
    /// Multiplied into each pixel.
    pub color: Color,
}

/// A triangle of one colour.
#[derive(Debug, Clone, Copy, PartialEq, Eq, Structural)]
pub struct FilledTriangle {
    pub a: Point,
    pub b: Point,
    pub c: Point,
    pub color: Color,
}

/// One step of drawing the UI, for the canvas to carry out.
#[derive(Debug, Clone, Copy, PartialEq, Eq)]
pub enum RenderOp {
    SetClipRect(Rect<Float32>),
    ClearClipRect,
    CopyRect(TexturedRect),
    FillTriangle(FilledTriangle),
    /// Call the callback of command `command` of draw list `draw_list`.
    RawCallback { draw_list: usize, command: usize },
}

/// The rectangle that stands for the two triangles that begin with `v1`,
/// `v2`, `v3`: the boxes around the first triangle on the screen and on the
/// texture, tinted with the colour of the first vertex.
pub open spec fn quad_rect(
    texture_id: usize,
    texture_size: (u16, u16),
    v1: DrawVert,
    v2: DrawVert,
    v3: DrawVert,
) -> TexturedRect {
    TexturedRect {
        texture_id,
        texture_size,
        uv: box_around(v1.uv, v2.uv, v3.uv),
        dest: box_around(v1.pos, v2.pos, v3.pos),
        color: v1.col,
    }
}

/// The triangle `v1`, `v2`, `v3` in the colour of its first vertex.
pub open spec fn plain_triangle(v1: DrawVert, v2: DrawVert, v3: DrawVert) -> FilledTriangle {
    FilledTriangle { a: v1.pos, b: v2.pos, c: v3.pos, color: v1.col }
}

/// Whether the triangle at index `i` of a run and the one after it are
/// drawn as one rectangle: there is a triangle after it, and the two form
/// a quad.
pub open spec fn coalesces(list: &DrawList, count: usize, params: DrawCmdParams, i: int) -> bool {
    i + 3 < count && forms_quad(
        list.vertex(params, i),
        list.vertex(params, i + 1),
        list.vertex(params, i + 2),
        list.vertex(params, i + 3),
        list.vertex(params, i + 4),
        list.vertex(params, i + 5),
    )
}

/// What is drawn for the triangle at index `i` of a run. Nothing is, where
/// the run's texture is not registered.
pub open spec fn triangle_op(
    list: &DrawList,
    count: usize,
    params: DrawCmdParams,
    texture_size: Option<(u16, u16)>,
    i: int,
) -> Seq<RenderOp> {
    let v1 = list.vertex(params, i);
    let v2 = list.vertex(params, i + 1);
    let v3 = list.vertex(params, i + 2);
    match texture_size {
        None => Seq::empty(),
        Some(size) => if coalesces(list, count, params, i) {
            seq![RenderOp::CopyRect(quad_rect(params.texture_id, size, v1, v2, v3))]
        } else {
            seq![RenderOp::FillTriangle(plain_triangle(v1, v2, v3))]
        },
    }
}

/// Where the walk goes on after the triangle at index `i`: a triangle
/// that coalesces with the next takes that one with it.
pub open spec fn next_triangle(list: &DrawList, count: usize, params: DrawCmdParams, i: int) -> int {
    if coalesces(list, count, params, i) {
        i + 6
    } else {
        i + 3
    }
}

/// What is drawn for the triangles of a run from index `i` on.
pub open spec fn triangle_ops(
    list: &DrawList,
    count: usize,
    params: DrawCmdParams,
    texture_size: Option<(u16, u16)>,
    i: int,
) -> Seq<RenderOp>
    decreases count + 6 - i,
{
    if i < 0 || i >= count {
        Seq::empty()
    } else {
        triangle_op(list, count, params, texture_size, i) + triangle_ops(
            list,
            count,
            params,
            texture_size,
            next_triangle(list, count, params, i),
        )
    }
}

/// What is drawn for a run of triangles: the clip rectangle is set, the
/// triangles are drawn, the clip rectangle is cleared.
pub open spec fn elements_ops(
    list: &DrawList,
    count: usize,
    params: DrawCmdParams,
    texture_size: Option<(u16, u16)>,
) -> Seq<RenderOp> {
    seq![RenderOp::SetClipRect(params.clip_rect)] + triangle_ops(
        list,
        count,
        params,
        texture_size,
        0,
    ) + seq![RenderOp::ClearClipRect]
}

/// Reads the vertex that the `k`-th index of a run names.
fn vertex_of(list: &DrawList, count: usize, params: &DrawCmdParams, k: usize) -> (v: DrawVert)
    requires
        list.run_in_range(count, *params),
        k < count,
    ensures
        v == list.vertex(*params, k as int),
{
    let index: u16 = list.idx_buffer[params.idx_offset + k];
    list.vtx_buffer[params.vtx_offset + index as usize]
}

/// Draws a run of triangles: appends to `ops` what `elements_ops` says.
pub fn render_elements(
    list: &DrawList,
    count: usize,
    params: &DrawCmdParams,
    texture_size: Option<(u16, u16)>,
    ops: &mut Vec<RenderOp>,
)
    requires
        list.run_in_range(count, *params),
    ensures
        final(ops)@ == old(ops)@ + elements_ops(list, count, *params, texture_size),
{
    ops.push(RenderOp::SetClipRect(params.clip_rect));
    let ghost begun = ops@;
    let ghost all = triangle_ops(list, count, *params, texture_size, 0);

    // Set when a triangle was drawn together with the one before it.
    let mut is_rect = false;
    let mut i: usize = 0;
    while i < count
        invariant
            list.run_in_range(count, *params),
            i % 3 == 0,
            i <= count,
            is_rect ==> i + 3 <= count,
            all == triangle_ops(list, count, *params, texture_size, 0),
            ops@ + triangle_ops(
                list,
                count,
                *params,
                texture_size,
                if is_rect {
                    i + 3
                } else {
                    i as int
                },
            ) == begun + all,
        decreases count - i,
    {
        if is_rect {
            is_rect = false;
            i += 3;
            continue ;
        }
        let v1 = vertex_of(list, count, params, i);
        let v2 = vertex_of(list, count, params, i + 1);
        let v3 = vertex_of(list, count, params, i + 2);

        if i < count - 3 {
            let v4 = vertex_of(list, count, params, i + 3);
            let v5 = vertex_of(list, count, params, i + 4);
            let v6 = vertex_of(list, count, params, i + 5);
            is_rect = forms_quad(v1, v2, v3, v4, v5, v6);
        }
        let ghost before = ops@;
        let ghost drawn = triangle_op(list, count, *params, texture_size, i as int);
        let ghost rest = triangle_ops(
            list,
            count,
            *params,
            texture_size,
            next_triangle(list, count, *params, i as int),
        );

        if let Some(size) = texture_size {
            if is_rect {
                ops.push(
                    RenderOp::CopyRect(
                        TexturedRect {
                            texture_id: params.texture_id,
                            texture_size: size,
                            uv: box_around(v1.uv, v2.uv, v3.uv),
                            dest: box_around(v1.pos, v2.pos, v3.pos),
                            color: v1.col,
                        },
                    ),
                );
            } else {
                ops.push(
                    RenderOp::FillTriangle(
                        FilledTriangle { a: v1.pos, b: v2.pos, c: v3.pos, color: v1.col },
                    ),
                );
            }
        }
        proof {
            assert(ops@ =~= before + drawn);
            assert((before + drawn) + rest =~= before + (drawn + rest));
        }
        i += 3;
    }
    ops.push(RenderOp::ClearClipRect);
    assert(ops@ =~= old(ops)@ + elements_ops(list, count, *params, texture_size));
}

/// Width and height of the texture registered as `id`, if one is.
pub open spec fn size_of(sizes: Map<usize, (u16, u16)>, id: usize) -> Option<(u16, u16)> {
    if sizes.contains_key(id) {
        Some(sizes[id])
    } else {
        None
    }
}

/// What is drawn for command `c` of the draw list `list`, which is the
/// `l`-th of its frame.
pub open spec fn command_ops(
    list: &DrawList,
    sizes: Map<usize, (u16, u16)>,
    l: int,
    c: int,
) -> Seq<RenderOp> {
    match list.commands@[c] {
        DrawCmd::Elements { count, cmd_params } => elements_ops(
            list,
            count,
            cmd_params,
            size_of(sizes, cmd_params.texture_id),
        ),
        DrawCmd::ResetRenderState => Seq::empty(),
        DrawCmd::RawCallback => seq![
            RenderOp::RawCallback { draw_list: l as usize, command: c as usize },
        ],
    }
}

/// What is drawn for the first `upto` commands of a draw list.
pub open spec fn list_ops(
    list: &DrawList,
    sizes: Map<usize, (u16, u16)>,
    l: int,
    upto: int,
) -> Seq<RenderOp>
    decreases upto,
{
    if upto <= 0 {
        Seq::empty()
    } else {
        list_ops(list, sizes, l, upto - 1) + command_ops(list, sizes, l, upto - 1)
    }
}

/// What is drawn for the first `upto` draw lists of a frame.
pub open spec fn data_ops(
    draw_data: &DrawData,
    sizes: Map<usize, (u16, u16)>,
    upto: int,
) -> Seq<RenderOp>
    decreases upto,
{
    if upto <= 0 {
        Seq::empty()
    } else {
        data_ops(draw_data, sizes, upto - 1) + list_ops(
            &draw_data.draw_lists@[upto - 1],
            sizes,
            upto - 1,
            draw_data.draw_lists@[upto - 1].commands@.len() as int,
        )
    }
}

/// Where two triangles form a quad, one copy is drawn for both: from the
/// box around the texture coordinates of the first triangle to the box
/// around its vertices on the screen, which by `lemma_quad_box_holds_all`
/// is the box around all six. The walk goes on behind the second triangle.
pub proof fn lemma_quad_is_one_copy(
    list: &DrawList,
    count: usize,
    params: DrawCmdParams,
    texture_size: (u16, u16),
    i: int,
)
    requires
        0 <= i,
        i + 3 < count,
        forms_quad(
            list.vertex(params, i),
            list.vertex(params, i + 1),
            list.vertex(params, i + 2),
            list.vertex(params, i + 3),
            list.vertex(params, i + 4),
            list.vertex(params, i + 5),
        ),
    ensures
        triangle_ops(list, count, params, Some(texture_size), i) == seq![
            RenderOp::CopyRect(
                TexturedRect {
                    texture_id: params.texture_id,
                    texture_size,
                    uv: box_around(
                        list.vertex(params, i).uv,
                        list.vertex(params, i + 1).uv,
                        list.vertex(params, i + 2).uv,
                    ),
                    dest: box_around(
                        list.vertex(params, i).pos,
                        list.vertex(params, i + 1).pos,
                        list.vertex(params, i + 2).pos,
                    ),
                    color: list.vertex(params, i).col,
                },
            ),
        ] + triangle_ops(list, count, params, Some(texture_size), i + 6),
{
}

/// Where one of the six vertices of two triangles is off the corners of
/// the box around the first, the first triangle is filled as a triangle and
/// the second is drawn in its turn, not skipped.
pub proof fn lemma_off_corner_falls_back(
    list: &DrawList,
    count: usize,
    params: DrawCmdParams,
    texture_size: (u16, u16),
    i: int,
    k: int,
)
    requires
        0 <= i,
        i + 3 < count,
        0 <= k < 6,
        !at_corner(
            list.vertex(params, i + k).pos,
            box_around(
                list.vertex(params, i).pos,
                list.vertex(params, i + 1).pos,
                list.vertex(params, i + 2).pos,
            ),
        ),
    ensures
        triangle_ops(list, count, params, Some(texture_size), i) == seq![
            RenderOp::FillTriangle(
                plain_triangle(
                    list.vertex(params, i),
                    list.vertex(params, i + 1),
                    list.vertex(params, i + 2),
                ),
            ),
        ] + triangle_ops(list, count, params, Some(texture_size), i + 3),
        triangle_ops(list, count, params, Some(texture_size), i + 3) == triangle_op(
            list,
            count,
            params,
            Some(texture_size),
            i + 3,
        ) + triangle_ops(
            list,
            count,
            params,
            Some(texture_size),
            next_triangle(list, count, params, i + 3),
        ),
        triangle_op(list, count, params, Some(texture_size), i + 3).len() == 1,
{
}

/// How many triangles of the mesh a step draws.
pub open spec fn triangles_in(op: RenderOp) -> nat {
    match op {
        RenderOp::CopyRect(_) => 2,
        RenderOp::FillTriangle(_) => 1,
        _ => 0,
    }
}

/// How many triangles of the mesh a run of steps draws.
pub open spec fn triangles_drawn(ops: Seq<RenderOp>) -> nat
    decreases ops.len(),
{
    if ops.len() == 0 {
        0
    } else {
        triangles_drawn(ops.drop_last()) + triangles_in(ops.last())
    }
}

proof fn lemma_triangles_drawn_concat(a: Seq<RenderOp>, b: Seq<RenderOp>)
    ensures
        triangles_drawn(a + b) == triangles_drawn(a) + triangles_drawn(b),
    decreases b.len(),
{
    if b.len() == 0 {
        assert(a + b =~= a);
    } else {
        assert((a + b).drop_last() =~= a + b.drop_last());
        lemma_triangles_drawn_concat(a, b.drop_last());
    }
}

/// A run whose texture is registered draws each of its triangles once:
/// from any triangle on, the steps draw as many triangles as remain.
pub proof fn lemma_every_triangle_drawn_once(
    list: &DrawList,
    count: usize,
    params: DrawCmdParams,
    texture_size: (u16, u16),
    i: int,
)
    requires
        count % 3 == 0,
        0 <= i <= count,
        i % 3 == 0,
    ensures
        3 * triangles_drawn(triangle_ops(list, count, params, Some(texture_size), i)) == count - i,
    decreases count - i,
{
    if i < count {
        let drawn = triangle_op(list, count, params, Some(texture_size), i);
        let next = next_triangle(list, count, params, i);
        lemma_every_triangle_drawn_once(list, count, params, texture_size, next);
        lemma_triangles_drawn_concat(
            drawn,
            triangle_ops(list, count, params, Some(texture_size), next),
        );
        assert(drawn.len() == 1);
        assert(drawn.drop_last() =~= Seq::empty());
        assert(triangles_drawn(Seq::<RenderOp>::empty()) == 0);
        assert(triangles_drawn(drawn) == triangles_in(drawn.last()));
    }
}

} // verus!
