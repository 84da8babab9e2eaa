//! Quads, their vertices, and the batch that one draw call renders.
use vstd::prelude::*;
use crate::display::{SizeInfo, SizeModel};
use crate::fixed::{abs, clamp, div_floor, div_nearest, in_range, nearest, COORD_MAX, ONE};
use crate::fixed::{lemma_nearest_bounds, lemma_nearest_magnitude};
use crate::font::{Metrics, MetricsModel};
use crate::term::Rgb;

verus! {

/// A point in pixel space: the origin is the top-left corner of the viewport,
/// `y` grows downward.
#[derive(Debug, Clone, Copy, PartialEq, Eq, Structural)]
pub struct QuadPoint {
    pub x: i64,
    pub y: i64,
}

/// What a [`QuadPoint`] stands for: a point of the plane.
pub struct Vec2 {
    pub x: int,
    pub y: int,
}

impl View for QuadPoint {
    type V = Vec2;

    open spec fn view(&self) -> Vec2 {
        Vec2 { x: self.x as int, y: self.y as int }
    }
}

impl Default for QuadPoint {
    /// The origin.
    fn default() -> (point: Self)
        ensures
            point == (QuadPoint { x: 0, y: 0 }),
    {
        QuadPoint { x: 0, y: 0 }
    }
}

impl QuadPoint {
    /// Both coordinates are within [`COORD_MAX`] of zero.
    pub open spec fn in_range(self) -> bool {
        in_range(self.x as int) && in_range(self.y as int)
    }

    /// Whether both coordinates are within [`COORD_MAX`] of zero.
    pub fn is_in_range(&self) -> (b: bool)
        ensures
            b == self.in_range(),
    {
        -COORD_MAX <= self.x && self.x <= COORD_MAX && -COORD_MAX <= self.y && self.y <= COORD_MAX
    }
}

/// The four corners that an array of points stands for, in its order.
pub open spec fn corners_of(points: [QuadPoint; 4]) -> Seq<Vec2> {
    Seq::new(4, |i: int| points[i]@)
}

/// Whether each of four points is in range.
pub open spec fn all_in_range(points: [QuadPoint; 4]) -> bool {
    forall|i: int| 0 <= i < 4 ==> (#[trigger] points[i]).in_range()
}

/// Whether each of four points is in range.
pub fn are_in_range(points: &[QuadPoint; 4]) -> (b: bool)
    ensures
        b == all_in_range(*points),
{
    points[0].is_in_range() && points[1].is_in_range() && points[2].is_in_range()
        && points[3].is_in_range()
}

/// A coloured quad. Its corners stand in the order top-left, top-right,
/// bottom-right, bottom-left.
#[derive(Debug, Clone, Copy)]
pub struct RenderQuad {
    pub points: [QuadPoint; 4],
    pub color: Rgb,
    pub alpha: i64,
}

impl RenderQuad {
    /// The quad with these corners, colour and opacity.
    pub fn new(points: [QuadPoint; 4], color: Rgb, alpha: i64) -> (quad: Self)
        ensures
            quad.points == points,
            quad.color == color,
            quad.alpha == alpha,
    {
        RenderQuad { points, color, alpha }
    }

    /// Every corner is in range.
    pub open spec fn in_range(self) -> bool {
        all_in_range(self.points)
    }

    /// Whether every corner is in range.
    pub fn is_in_range(&self) -> (b: bool)
        ensures
            b == self.in_range(),
    {
        are_in_range(&self.points)
    }
}

/// The locations that the driver reported for the uniforms of the rectangle
/// shader, each `-1` where the linked program has no such uniform.
#[derive(Debug, Clone, Copy)]
pub struct UniformLocations {
    pub cell_width: i32,
    pub cell_height: i32,
    pub padding_x: i32,
    pub padding_y: i32,
    pub underline_position: i32,
    pub underline_thickness: i32,
    pub undercurl_position: i32,
}

/// The slot that a reported location stands for: none where the driver
/// answered `-1`.
pub open spec fn slot_of(location: i32) -> Option<i32> {
    if location == -1 {
        None
    } else {
        Some(location)
    }
}

/// The rectangle drawing program: the name of the linked program and the
/// slot of each uniform that it exposes.
#[derive(Debug)]
pub struct QuadShaderProgram {
    /// Shader program.
    pub program: u32,
    /// Cell width.
    pub u_cell_width: Option<i32>,
    /// Cell height.
    pub u_cell_height: Option<i32>,
    /// Terminal padding.
    pub u_padding_x: Option<i32>,
    /// A padding from the bottom of the screen to viewport.
    pub u_padding_y: Option<i32>,
    /// Underline position.
    pub u_underline_position: Option<i32>,
    /// Underline thickness.
    pub u_underline_thickness: Option<i32>,
    /// Undercurl position.
    pub u_undercurl_position: Option<i32>,
}

fn slot(location: i32) -> (s: Option<i32>)
    ensures
        s == slot_of(location),
{
    if location == -1 {
        None
    } else {
        Some(location)
    }
}

impl QuadShaderProgram {
    /// Records a linked program and the uniforms it exposes. A uniform that
    /// the driver did not find is left without a slot and is skipped when the
    /// uniforms are bound.
    pub fn new(program: u32, locations: &UniformLocations) -> (shader: Self)
        ensures
            shader.program == program,
            shader.u_cell_width == slot_of(locations.cell_width),
            shader.u_cell_height == slot_of(locations.cell_height),
            shader.u_padding_x == slot_of(locations.padding_x),
            shader.u_padding_y == slot_of(locations.padding_y),
            shader.u_underline_position == slot_of(locations.underline_position),
            shader.u_underline_thickness == slot_of(locations.underline_thickness),
            shader.u_undercurl_position == slot_of(locations.undercurl_position),
    {
        QuadShaderProgram {
            program,
            u_cell_width: slot(locations.cell_width),
            u_cell_height: slot(locations.cell_height),
            u_padding_x: slot(locations.padding_x),
            u_padding_y: slot(locations.padding_y),
            u_underline_position: slot(locations.underline_position),
            u_underline_thickness: slot(locations.underline_thickness),
            u_undercurl_position: slot(locations.undercurl_position),
        }
    }

    /// The name of the linked program.
    pub fn id(&self) -> (id: u32)
        ensures
            id == self.program,
    {
        self.program
    }
}

/// A value to bind to a uniform of the linked program.
#[derive(Debug, Clone, Copy, PartialEq, Eq, Structural)]
pub struct UniformBinding {
    pub location: i32,
    pub value: i64,
}

/// What is left of the viewport below the last full row of cells, the
/// padding above the grid taken off first.
pub open spec fn bottom_padding(size_info: SizeModel) -> int {
    let viewport_height = size_info.height - size_info.padding_y;
    viewport_height - (viewport_height / size_info.cell_height) * size_info.cell_height
}

/// How far below the top of its cell an underline starts.
pub open spec fn underline_offset(metrics: MetricsModel) -> int {
    abs(metrics.descent) - abs(metrics.underline_position)
}

/// The line that an undercurl swings about: half the descent.
pub open spec fn undercurl_offset(metrics: MetricsModel) -> int {
    abs(nearest(metrics.descent, 2))
}

/// The binding of `value` to a slot: none where the program has no such
/// uniform.
pub open spec fn bound_to(slot: Option<i32>, value: int) -> Seq<(int, int)> {
    match slot {
        Some(location) => seq![(location as int, value)],
        None => Seq::empty(),
    }
}

/// The bindings of a sequence of uniforms, as pairs of location and value.
pub open spec fn bindings_of(uniforms: Seq<UniformBinding>) -> Seq<(int, int)> {
    uniforms.map_values(|u: UniformBinding| (u.location as int, u.value as int))
}

impl QuadShaderProgram {
    /// The uniforms to bind before a draw, in this order, each only if the
    /// program exposes it: the cell's width and height, the padding below the
    /// grid, the padding left of it, the underline's offset and thickness,
    /// the undercurl's offset.
    pub open spec fn uniforms(self, size_info: SizeModel, metrics: MetricsModel) -> Seq<
        (int, int),
    > {
        bound_to(self.u_cell_width, size_info.cell_width) + bound_to(
            self.u_cell_height,
            size_info.cell_height,
        ) + bound_to(self.u_padding_y, bottom_padding(size_info)) + bound_to(
            self.u_padding_x,
            size_info.padding_x,
        ) + bound_to(self.u_underline_position, underline_offset(metrics)) + bound_to(
            self.u_underline_thickness,
            metrics.underline_thickness,
        ) + bound_to(self.u_undercurl_position, undercurl_offset(metrics))
    }

    /// The uniforms to bind before a draw.
    pub fn update_uniforms(&self, size_info: &SizeInfo, metrics: &Metrics) -> (uniforms: Vec<
        UniformBinding,
    >)
        ensures
            bindings_of(uniforms@) == self.uniforms(size_info@, metrics@),
    {
        let descent = metrics.descent();
        proof {
            lemma_nearest_bounds(descent as int, 2);
        }
        let position = magnitude(div_nearest(descent as i128, 2) as i64);
        let underline_position = magnitude(descent) - magnitude(metrics.underline_position());

        let cell_height = size_info.cell_height();
        let viewport_height = size_info.height() - size_info.padding_y();
        let rows = div_floor(viewport_height as i128, cell_height as i128);
        proof {
            vstd::arithmetic::div_mod::lemma_fundamental_div_mod(
                viewport_height as int,
                cell_height as int,
            );
            vstd::arithmetic::div_mod::lemma_mod_bound(viewport_height as int, cell_height as int);
            vstd::arithmetic::mul::lemma_mul_is_commutative(rows as int, cell_height as int);
        }
        let padding_y = ((viewport_height as i128) - rows * (cell_height as i128)) as i64;

        let mut uniforms: Vec<UniformBinding> = Vec::new();
        bind(&mut uniforms, self.u_cell_width, size_info.cell_width());
        bind(&mut uniforms, self.u_cell_height, cell_height);
        bind(&mut uniforms, self.u_padding_y, padding_y);
        bind(&mut uniforms, self.u_padding_x, size_info.padding_x());
        bind(&mut uniforms, self.u_underline_position, underline_position);
        bind(&mut uniforms, self.u_underline_thickness, metrics.underline_thickness());
        bind(&mut uniforms, self.u_undercurl_position, position);
        uniforms
    }
}

/// The magnitude of `x`.
fn magnitude(x: i64) -> (m: i64)
    requires
        x > i64::MIN,
    ensures
        m == abs(x as int),
{
    if x < 0 {
        -x
    } else {
        x
    }
}

/// Appends the binding of `value` to `slot`, if there is a slot.
fn bind(uniforms: &mut Vec<UniformBinding>, slot: Option<i32>, value: i64)
    ensures
        bindings_of(final(uniforms)@) == bindings_of(old(uniforms)@) + bound_to(
            slot,
            value as int,
        ),
{
    if let Some(location) = slot {
        uniforms.push(UniformBinding { location, value });
    }
    assert(bindings_of(uniforms@) =~= bindings_of(old(uniforms)@) + bound_to(
        slot,
        value as int,
    ));
}

/// A vertex as the driver takes it: a place in normalized device
/// coordinates, where the viewport reaches from `-1` to `1` along both axes
/// and `y` grows upward, and a colour of four eight-bit channels.
#[derive(Debug, Clone, Copy, PartialEq, Eq, Structural)]
pub struct Vertex {
    pub x: i64,
    pub y: i64,
    pub r: u8,
    pub g: u8,
    pub b: u8,
    pub a: u8,
}

/// What a [`Vertex`] stands for.
pub struct VertexModel {
    pub x: int,
    pub y: int,
    pub color: Rgb,
    pub alpha: int,
}

impl View for Vertex {
    type V = VertexModel;

    open spec fn view(&self) -> VertexModel {
        VertexModel {
            x: self.x as int,
            y: self.y as int,
            color: Rgb { r: self.r, g: self.g, b: self.b },
            alpha: self.a as int,
        }
    }
}

/// What a sequence of vertices stands for.
pub open spec fn vertices_of(vertices: Seq<Vertex>) -> Seq<VertexModel> {
    vertices.map_values(|v: Vertex| v@)
}

/// The device coordinate of the pixel column `x` in a viewport of the given
/// width: `-1` at the left edge, `1` at the right.
pub open spec fn ndc_x(x: int, width: int) -> int {
    nearest(2 * x * ONE, width) - ONE
}

/// The device coordinate of the pixel row `y` in a viewport of the given
/// height: `1` at the top edge, `-1` at the bottom.
pub open spec fn ndc_y(y: int, height: int) -> int {
    nearest(-2 * y * ONE, height) + ONE
}

/// An opacity as an eight-bit channel: `255` times the opacity, rounded, and
/// held to what eight bits can say.
pub open spec fn packed_alpha(alpha: int) -> int {
    clamp(nearest(alpha * 255, ONE as int), 0, 255)
}

/// The corner of a quad that its vertex number `k` is taken from. The six
/// vertices make two triangles that share the diagonal from the top-left
/// corner to the bottom-right one.
pub open spec fn corner_order(k: int) -> int {
    if k == 0 || k == 3 {
        0
    } else if k == 1 {
        1
    } else if k == 4 {
        3
    } else {
        2
    }
}

/// The vertex at a corner of a quad.
pub open spec fn vertex_at(quad: RenderQuad, corner: int, size_info: SizeModel) -> VertexModel {
    VertexModel {
        x: ndc_x(quad.points[corner].x as int, size_info.width),
        y: ndc_y(quad.points[corner].y as int, size_info.height),
        color: quad.color,
        alpha: packed_alpha(quad.alpha as int),
    }
}

/// The six vertices of a quad.
pub open spec fn quad_vertices(quad: RenderQuad, size_info: SizeModel) -> Seq<VertexModel> {
    Seq::new(6, |k: int| vertex_at(quad, corner_order(k), size_info))
}

/// The vertices of a batch: six for each quad, the quads in their order.
pub open spec fn batch_vertices(quads: Seq<RenderQuad>, size_info: SizeModel) -> Seq<VertexModel> {
    Seq::new(6 * quads.len(), |k: int| vertex_at(quads[k / 6], corner_order(k % 6), size_info))
}

/// The device coordinate of a pixel column.
pub fn to_ndc_x(x: i64, width: i64) -> (ndc: i64)
    requires
        in_range(x as int),
        ONE <= width,
    ensures
        ndc == ndc_x(x as int, width as int),
{
    proof {
        lemma_ndc_fits(2 * x * ONE, width as int);
    }
    let doubled: i128 = 2 * (x as i128) * (ONE as i128);
    (div_nearest(doubled, width as i128) - (ONE as i128)) as i64
}

/// The device coordinate of a pixel row.
pub fn to_ndc_y(y: i64, height: i64) -> (ndc: i64)
    requires
        in_range(y as int),
        ONE <= height,
    ensures
        ndc == ndc_y(y as int, height as int),
{
    proof {
        lemma_ndc_fits(-2 * y * ONE, height as int);
    }
    let doubled: i128 = -2 * (y as i128) * (ONE as i128);
    (div_nearest(doubled, height as i128) + (ONE as i128)) as i64
}

/// The quotient of a doubled, scaled coordinate by a side of the viewport
/// is no larger than twice the largest coordinate.
proof fn lemma_ndc_fits(n: int, side: int)
    requires
        -2_000_000_000_000_000_000_000 <= n <= 2_000_000_000_000_000_000_000,
        ONE <= side,
    ensures
        -2_000_000_000_000_000 <= nearest(n, side) <= 2_000_000_000_000_000,
{
    assert(2_000_000_000_000_000 * side >= 2_000_000_000_000_000_000_000) by (nonlinear_arith)
        requires
            side >= 1_000_000,
    ;
    lemma_nearest_magnitude(n, side, 2_000_000_000_000_000);
}

/// An opacity as an eight-bit channel.
pub fn pack_alpha(alpha: i64) -> (a: u8)
    ensures
        a == packed_alpha(alpha as int),
{
    let scaled = div_nearest((alpha as i128) * 255, ONE as i128);
    if scaled < 0 {
        0
    } else if scaled > 255 {
        255
    } else {
        scaled as u8
    }
}

/// The rectangle renderer: the names of its buffer objects, its program, and
/// the vertices of the batch it drew last.
#[derive(Debug)]
pub struct QuadRenderer {
    pub vao: u32,
    pub vbo: u32,
    pub programs: QuadShaderProgram,
    pub vertices: Vec<Vertex>,
}

/// What the driver is to do for one frame: with the vertex array and the
/// buffer bound and the program in use, bind the uniforms, upload the
/// renderer's vertices in place of what the buffer held, and draw
/// `vertex_count` of them as a list of triangles.
#[derive(Debug)]
pub struct DrawCall {
    pub vao: u32,
    pub vbo: u32,
    pub program: u32,
    pub uniforms: Vec<UniformBinding>,
    pub vertex_count: usize,
}

impl QuadRenderer {
    /// A renderer with the given buffer objects and program, and no vertices
    /// yet.
    pub fn new(vao: u32, vbo: u32, programs: QuadShaderProgram) -> (renderer: Self)
        ensures
            renderer.vao == vao,
            renderer.vbo == vbo,
            renderer.programs == programs,
            renderer.vertices@ == Seq::<Vertex>::empty(),
    {
        QuadRenderer { vao, vbo, programs, vertices: Vec::new() }
    }

    /// Replaces the renderer's vertices by those of `quads` and says what to
    /// draw: nothing where there is no quad.
    pub fn draw(&mut self, size_info: &SizeInfo, metrics: &Metrics, quads: Vec<RenderQuad>) -> (call:
        Option<DrawCall>)
        requires
            forall|i: int| 0 <= i < quads@.len() ==> (#[trigger] quads@[i]).in_range(),
        ensures
            final(self).vao == old(self).vao,
            final(self).vbo == old(self).vbo,
            final(self).programs == old(self).programs,
            vertices_of(final(self).vertices@) == batch_vertices(quads@, size_info@),
            final(self).vertices@.len() == 6 * quads@.len(),
            quads@.len() == 0 <==> call is None,
            call matches Some(c) ==> {
                &&& c.vao == old(self).vao
                &&& c.vbo == old(self).vbo
                &&& c.program == old(self).programs.program
                &&& bindings_of(c.uniforms@) == old(self).programs.uniforms(size_info@, metrics@)
                &&& c.vertex_count == 6 * quads@.len()
            },
    {
        self.vertices.clear();
        let n = quads.len();
        for q in 0..n
            invariant
                n == quads@.len(),
                forall|i: int| 0 <= i < quads@.len() ==> (#[trigger] quads@[i]).in_range(),
                self.vao == old(self).vao,
                self.vbo == old(self).vbo,
                self.programs == old(self).programs,
                vertices_of(self.vertices@) == batch_vertices(quads@.take(q as int), size_info@),
        {
            Self::add_quad(&mut self.vertices, size_info, &quads[q]);
            proof {
                lemma_batch_push(quads@.take(q as int), quads@[q as int], size_info@);
                assert(quads@.take(q as int).push(quads@[q as int]) =~= quads@.take(q + 1));
            }
        }
        assert(quads@.take(n as int) =~= quads@);
        if self.vertices.is_empty() {
            None
        } else {
            Some(
                DrawCall {
                    vao: self.vao,
                    vbo: self.vbo,
                    program: self.programs.id(),
                    uniforms: self.programs.update_uniforms(size_info, metrics),
                    vertex_count: self.vertices.len(),
                },
            )
        }
    }

    /// Gives up the renderer and hands back the names of what it held on the
    /// driver's side, for the caller to delete: the vertex array, the buffer
    /// and the program.
    pub fn release(self) -> (names: (u32, u32, u32))
        ensures
            names == (self.vao, self.vbo, self.programs.program),
    {
        (self.vao, self.vbo, self.programs.program)
    }

    /// Appends the six vertices of `quad`.
    pub fn add_quad(vertices: &mut Vec<Vertex>, size_info: &SizeInfo, quad: &RenderQuad)
        requires
            quad.in_range(),
        ensures
            vertices_of(final(vertices)@) == vertices_of(old(vertices)@) + quad_vertices(
                *quad,
                size_info@,
            ),
    {
        let width = size_info.width();
        let height = size_info.height();
        let order: [usize; 6] = [0, 1, 2, 0, 3, 2];
        for k in 0..6usize
            invariant
                quad.in_range(),
                ONE <= width == size_info@.width,
                ONE <= height == size_info@.height,
                order@ == seq![0usize, 1, 2, 0, 3, 2],
                vertices_of(vertices@) == vertices_of(old(vertices)@) + quad_vertices(
                    *quad,
                    size_info@,
                ).take(k as int),
        {
            let p = quad.points[order[k]];
            assert(order[k as int] == corner_order(k as int));
            let x = to_ndc_x(p.x, width);
            let y = to_ndc_y(p.y, height);
            let (r, g, b) = quad.color.as_tuple();
            let a = pack_alpha(quad.alpha);
            let ghost before = vertices@;
            let vertex = Vertex { x, y, r, g, b, a };
            vertices.push(vertex);
            proof {
                let six = quad_vertices(*quad, size_info@);
                assert(vertex@ == six[k as int]);
                assert(vertices_of(vertices@) =~= vertices_of(before).push(vertex@));
                assert(six.take(k + 1) =~= six.take(k as int).push(six[k as int]));
                assert(vertices_of(vertices@) =~= vertices_of(old(vertices)@) + six.take(k + 1));
            }
        }
        assert(quad_vertices(*quad, size_info@).take(6) =~= quad_vertices(*quad, size_info@));
    }
}

/// The vertices of a batch with one more quad are those of the batch and
/// then those of the quad.
pub proof fn lemma_batch_push(quads: Seq<RenderQuad>, quad: RenderQuad, size_info: SizeModel)
    ensures
        batch_vertices(quads.push(quad), size_info) == batch_vertices(quads, size_info)
            + quad_vertices(quad, size_info),
{
    let left = batch_vertices(quads.push(quad), size_info);
    let right = batch_vertices(quads, size_info) + quad_vertices(quad, size_info);
    assert(left.len() == right.len());
    assert forall|k: int| 0 <= k < left.len() implies left[k] == right[k] by {
        if k < 6 * quads.len() {
            assert(k / 6 < quads.len());
        } else {
            let j = k - 6 * quads.len();
            assert(k / 6 == quads.len() && k % 6 == j) by {
                vstd::arithmetic::div_mod::lemma_fundamental_div_mod_converse(
                    k,
                    6,
                    quads.len() as int,
                    j,
                );
            }
        }
    }
    assert(left =~= right);
}

} // verus!
