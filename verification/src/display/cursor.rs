//! The quad that a cursor aims at, and the state that follows it from frame
//! to frame.
use vstd::prelude::*;
use crate::display::content::RenderableCursor;
use crate::display::motion::{blend, next_velocity, step, Corner, VELOCITY_FLOOR};
use crate::display::motion::{distance_sq, lemma_blend_approaches, run};
use crate::display::{SizeInfo, SizeModel};
use crate::fixed::{div_nearest, in_range, lemma_nearest_bounds, nearest};
use crate::fixed::{CELL_MAX, COORD_MAX, GRID_MAX, ONE, ORIGIN_MAX, RATIO_MAX};
use crate::renderer::quads::{all_in_range, are_in_range, corners_of};
use crate::renderer::quads::{QuadPoint, RenderQuad, Vec2};
use crate::term::{CursorShape, Point};

verus! {

/// The thickness of a beam or an underline in a cell of the given width: the
/// ratio's share of the width, rounded to whole pixels, and one pixel at least.
pub open spec fn thickness_for(ratio: int, cell_width: int) -> int {
    let pixels = nearest(ratio * cell_width, ONE * ONE);
    if pixels < 1 {
        ONE as int
    } else {
        pixels * ONE
    }
}

/// The corners of a vertical bar: `thickness` wide and `height` high, its
/// top-left corner at `(x, y)`.
pub open spec fn beam_quad(x: int, y: int, height: int, thickness: int) -> Seq<Vec2> {
    seq![
        Vec2 { x, y },
        Vec2 { x: x + thickness, y },
        Vec2 { x: x + thickness, y: y + height },
        Vec2 { x, y: y + height },
    ]
}

/// The corners of a horizontal bar along the bottom of the cell whose
/// top-left corner is `(x, y)`: `width` wide and `thickness` high.
pub open spec fn underline_quad(x: int, y: int, width: int, height: int, thickness: int) -> Seq<
    Vec2,
> {
    let top = y + height - thickness;
    seq![
        Vec2 { x, y: top },
        Vec2 { x: x + width, y: top },
        Vec2 { x: x + width, y: top + thickness },
        Vec2 { x, y: top + thickness },
    ]
}

/// The width that a cursor covers: two cells over a wide character.
pub open spec fn effective_width(cell_width: int, is_wide: bool) -> int {
    if is_wide {
        2 * cell_width
    } else {
        cell_width
    }
}

/// The quad that a cursor of the given shape aims at in the cell whose
/// top-left corner is `(x, y)`.
///
/// A beam is a vertical bar at the left of the cell, an underline a
/// horizontal bar along its bottom. Every other shape takes the formula of the
/// beam with the two sides of the cell exchanged: a bar as wide as the cell is
/// high, and as high as the cursor is wide.
pub open spec fn target_quad_of(
    shape: CursorShape,
    x: int,
    y: int,
    cell_width: int,
    cell_height: int,
    thickness_ratio: int,
    is_wide: bool,
) -> Seq<Vec2> {
    let thickness = thickness_for(thickness_ratio, cell_width);
    let width = effective_width(cell_width, is_wide);
    match shape {
        CursorShape::Beam => beam_quad(x, y, cell_height, thickness),
        CursorShape::Underline => underline_quad(x, y, width, cell_height, thickness),
        _ => beam_quad(x, y, width, cell_height),
    }
}

/// The top-left corner of the cell at `point`.
pub open spec fn cell_origin(size_info: SizeModel, point: Point) -> Vec2 {
    Vec2 {
        x: point.column * size_info.cell_width + size_info.padding_x,
        y: point.line * size_info.cell_height + size_info.padding_y,
    }
}

/// The thickness of a beam or an underline.
pub fn thickness(ratio: i64, cell_width: i64) -> (t: i64)
    requires
        -RATIO_MAX <= ratio <= RATIO_MAX,
        0 <= cell_width <= CELL_MAX,
    ensures
        t == thickness_for(ratio as int, cell_width as int),
        ONE <= t <= RATIO_MAX * 10_000 + ONE,
{
    assert(-RATIO_MAX * CELL_MAX <= ratio * cell_width <= RATIO_MAX * CELL_MAX)
        by (nonlinear_arith)
        requires
            -RATIO_MAX <= ratio <= RATIO_MAX,
            0 <= cell_width <= CELL_MAX,
    ;
    let product: i128 = (ratio as i128) * (cell_width as i128);
    let pixels = div_nearest(product, (ONE as i128) * (ONE as i128));
    proof {
        lemma_nearest_bounds(product as int, ONE * ONE);
    }
    if pixels < 1 {
        ONE
    } else {
        (pixels as i64) * ONE
    }
}

/// A vertical bar.
pub fn beam(x: i64, y: i64, height: i64, thickness: i64) -> (quad: [QuadPoint; 4])
    requires
        in_range(x as int),
        in_range(y as int),
        in_range(x + thickness),
        in_range(y + height),
    ensures
        corners_of(quad) == beam_quad(x as int, y as int, height as int, thickness as int),
        all_in_range(quad),
{
    let quad = [
        QuadPoint { x, y },
        QuadPoint { x: x + thickness, y },
        QuadPoint { x: x + thickness, y: y + height },
        QuadPoint { x, y: y + height },
    ];
    assert(corners_of(quad) =~= beam_quad(x as int, y as int, height as int, thickness as int));
    quad
}

/// A horizontal bar along the bottom of a cell.
pub fn underline(x: i64, y: i64, width: i64, height: i64, thickness: i64) -> (quad: [QuadPoint; 4])
    requires
        in_range(x as int),
        in_range(x + width),
        in_range(y + height),
        in_range(y + height - thickness),
    ensures
        corners_of(quad) == underline_quad(
            x as int,
            y as int,
            width as int,
            height as int,
            thickness as int,
        ),
        all_in_range(quad),
{
    let y = ((y as i128) + (height as i128) - (thickness as i128)) as i64;
    let quad = [
        QuadPoint { x, y },
        QuadPoint { x: x + width, y },
        QuadPoint { x: x + width, y: y + thickness },
        QuadPoint { x, y: y + thickness },
    ];
    assert(corners_of(quad) =~= underline_quad(
        x as int,
        y + thickness - height,
        width as int,
        height as int,
        thickness as int,
    ));
    quad
}

/// The quad that a cursor of the given shape aims at in the cell whose
/// top-left corner is `(x, y)`.
pub fn target_quad(
    shape: CursorShape,
    x: i64,
    y: i64,
    cell_width: i64,
    cell_height: i64,
    thickness_ratio: i64,
    is_wide: bool,
) -> (quad: [QuadPoint; 4])
    requires
        -ORIGIN_MAX <= x <= ORIGIN_MAX,
        -ORIGIN_MAX <= y <= ORIGIN_MAX,
        0 <= cell_width <= CELL_MAX,
        0 <= cell_height <= CELL_MAX,
        -RATIO_MAX <= thickness_ratio <= RATIO_MAX,
    ensures
        corners_of(quad) == target_quad_of(
            shape,
            x as int,
            y as int,
            cell_width as int,
            cell_height as int,
            thickness_ratio as int,
            is_wide,
        ),
        all_in_range(quad),
{
    let thickness = thickness(thickness_ratio, cell_width);
    let width = if is_wide {
        2 * cell_width
    } else {
        cell_width
    };
    match shape {
        CursorShape::Beam => beam(x, y, cell_height, thickness),
        CursorShape::Underline => underline(x, y, width, cell_height, thickness),
        _ => beam(x, y, width, cell_height),
    }
}

/// The state that smooths a cursor's motion: for each corner of its quad,
/// where the corner is drawn and its velocity.
#[derive(Debug, Clone, Copy, PartialEq)]
pub struct CursorRects {
    pub vels: [i64; 4],
    pub positions: [QuadPoint; 4],
}

/// Whether `after` is what one frame makes of `before`: each corner has
/// taken one step toward the corner of `target` with its index.
pub open spec fn follows(
    before: CursorRects,
    after: CursorRects,
    target: Seq<Vec2>,
    diagonal_sq: int,
) -> bool {
    forall|i: int|
        0 <= i < 4 ==> #[trigger] after.corner(i) == step(
            before.corner(i),
            target[i].x,
            target[i].y,
            diagonal_sq,
        )
}

/// Frame after frame on one target, each corner of the state goes the way
/// that [`run`] describes: where every state of a sequence follows from the
/// one before it, the last holds what as many frames make of the first.
pub proof fn lemma_frames(states: Seq<CursorRects>, target: Seq<Vec2>, diagonal_sq: int, i: int)
    requires
        states.len() > 0,
        forall|k: int|
            0 <= k < states.len() - 1 ==> follows(
                #[trigger] states[k],
                states[k + 1],
                target,
                diagonal_sq,
            ),
        0 <= i < 4,
    ensures
        states.last().corner(i) == run(
            states[0].corner(i),
            target[i].x,
            target[i].y,
            diagonal_sq,
            (states.len() - 1) as nat,
        ),
    decreases states.len(),
{
    if states.len() > 1 {
        let rest = states.subrange(1, states.len() as int);
        assert forall|k: int| 0 <= k < rest.len() - 1 implies follows(
            #[trigger] rest[k],
            rest[k + 1],
            target,
            diagonal_sq,
        ) by {
            assert(follows(states[k + 1], states[k + 2], target, diagonal_sq));
        }
        lemma_frames(rest, target, diagonal_sq, i);
        assert(follows(states[0], states[1], target, diagonal_sq));
        assert(rest[0].corner(i) == step(states[0].corner(i), target[i].x, target[i].y, diagonal_sq));
        assert(rest.last() == states.last());
    }
}

/// One corner a frame later.
fn advance_corner(position: QuadPoint, velocity: i64, target: QuadPoint, diagonal_sq: i128) -> (next:
    (QuadPoint, i64))
    requires
        position.in_range(),
        target.in_range(),
        0 <= velocity <= ONE,
        0 < diagonal_sq <= 2_000_000_000_000_000_000_000_000,
    ensures
        ({
            let before = Corner { x: position.x as int, y: position.y as int, velocity: velocity as int };
            let after = Corner { x: next.0.x as int, y: next.0.y as int, velocity: next.1 as int };
            after == step(before, target.x as int, target.y as int, diagonal_sq as int)
        }),
        next.0.in_range(),
        VELOCITY_FLOOR <= next.1 <= ONE,
{
    let dx: i128 = (target.x as i128) - (position.x as i128);
    let dy: i128 = (target.y as i128) - (position.y as i128);
    assert(0 <= dx * dx <= 4_000_000_000_000_000_000_000_000_000_000) by (nonlinear_arith)
        requires
            -2_000_000_000_000_000 <= dx <= 2_000_000_000_000_000,
    ;
    assert(0 <= dy * dy <= 4_000_000_000_000_000_000_000_000_000_000) by (nonlinear_arith)
        requires
            -2_000_000_000_000_000 <= dy <= 2_000_000_000_000_000,
    ;
    let dist_sq: i128 = dx * dx + dy * dy;
    let nine: i128 = 9 * (velocity as i128);
    assert(0 <= nine * diagonal_sq <= 18_000_000_000_000_000_000_000_000_000_000)
        by (nonlinear_arith)
        requires
            0 <= nine <= 9_000_000,
            0 < diagonal_sq <= 2_000_000_000_000_000_000_000_000,
    ;
    assert(nine * diagonal_sq == 9 * velocity * diagonal_sq) by (nonlinear_arith)
        requires
            nine == 9 * velocity,
    ;
    assert(0 <= ONE * dist_sq <= 8_000_000_000_000_000_000_000_000_000_000_000_000)
        by (nonlinear_arith)
        requires
            ONE == 1_000_000,
            0 <= dist_sq <= 8_000_000_000_000_000_000_000_000_000_000,
    ;
    let raised: i128 = nine * diagonal_sq + (ONE as i128) * dist_sq;
    let raw = div_nearest(raised, 10 * diagonal_sq);
    let v: i64 = if raw < VELOCITY_FLOOR as i128 {
        VELOCITY_FLOOR
    } else if raw > ONE as i128 {
        ONE
    } else {
        raw as i64
    };
    assert(v == next_velocity(
        velocity as int,
        distance_sq(position.x as int, position.y as int, target.x as int, target.y as int),
        diagonal_sq as int,
    ));
    proof {
        lemma_blend_approaches(position.x as int, target.x as int, v as int);
        lemma_blend_approaches(position.y as int, target.y as int, v as int);
    }
    let x = blend_exec(position.x, target.x, v);
    let y = blend_exec(position.y, target.y, v);
    (QuadPoint { x, y }, v)
}

/// The point that lies the share `v` of the way from `p` to `t`.
fn blend_exec(p: i64, t: i64, v: i64) -> (b: i64)
    requires
        in_range(p as int),
        in_range(t as int),
        VELOCITY_FLOOR <= v <= ONE,
    ensures
        b == blend(p as int, t as int, v as int),
        in_range(b as int),
{
    assert(-COORD_MAX * ONE <= p * (ONE - v) <= COORD_MAX * ONE) by (nonlinear_arith)
        requires
            -COORD_MAX <= p <= COORD_MAX,
            0 <= ONE - v <= ONE,
    ;
    assert(-COORD_MAX * ONE <= t * v <= COORD_MAX * ONE) by (nonlinear_arith)
        requires
            -COORD_MAX <= t <= COORD_MAX,
            0 <= v <= ONE,
    ;
    let weighted: i128 = (p as i128) * ((ONE - v) as i128) + (t as i128) * (v as i128);
    proof {
        lemma_blend_approaches(p as int, t as int, v as int);
    }
    div_nearest(weighted, ONE as i128) as i64
}

impl CursorRects {
    /// The state before the first frame: every corner at the origin, at no
    /// velocity.
    pub open spec fn zeroed() -> CursorRects {
        CursorRects {
            vels: [0i64, 0i64, 0i64, 0i64],
            positions: [
                QuadPoint { x: 0, y: 0 },
                QuadPoint { x: 0, y: 0 },
                QuadPoint { x: 0, y: 0 },
                QuadPoint { x: 0, y: 0 },
            ],
        }
    }

    /// The corner with index `i`.
    pub open spec fn corner(self, i: int) -> Corner {
        Corner {
            x: self.positions[i].x as int,
            y: self.positions[i].y as int,
            velocity: self.vels[i] as int,
        }
    }

    /// Every corner is in range and no velocity is negative or above one.
    pub open spec fn valid(self) -> bool {
        &&& all_in_range(self.positions)
        &&& forall|i: int| 0 <= i < 4 ==> 0 <= #[trigger] self.vels[i] <= ONE
    }

    /// Whether every corner is in range and no velocity is negative or above
    /// one.
    pub fn is_valid(&self) -> (b: bool)
        ensures
            b == self.valid(),
    {
        let velocities = 0 <= self.vels[0] && self.vels[0] <= ONE && 0 <= self.vels[1]
            && self.vels[1] <= ONE && 0 <= self.vels[2] && self.vels[2] <= ONE && 0
            <= self.vels[3] && self.vels[3] <= ONE;
        are_in_range(&self.positions) && velocities
    }

    /// Moves each corner one frame toward the corner of `target` with its
    /// index, in a viewport of the given size.
    pub fn advance(&mut self, target: &[QuadPoint; 4], size_info: &SizeInfo)
        requires
            old(self).valid(),
            all_in_range(*target),
        ensures
            follows(*old(self), *final(self), corners_of(*target), size_info@.diagonal_sq()),
            final(self).valid(),
            forall|i: int| 0 <= i < 4 ==> VELOCITY_FLOOR <= #[trigger] final(self).vels[i] <= ONE,
    {
        let width = size_info.width() as i128;
        let height = size_info.height() as i128;
        assert(0 < width * width <= 1_000_000_000_000_000_000_000_000) by (nonlinear_arith)
            requires
                0 < width <= 1_000_000_000_000,
        ;
        assert(0 < height * height <= 1_000_000_000_000_000_000_000_000) by (nonlinear_arith)
            requires
                0 < height <= 1_000_000_000_000,
        ;
        let diagonal_sq: i128 = width * width + height * height;
        for i in 0..4usize
            invariant
                0 < diagonal_sq <= 2_000_000_000_000_000_000_000_000,
                diagonal_sq == size_info@.diagonal_sq(),
                all_in_range(*target),
                forall|j: int|
                    0 <= j < i ==> #[trigger] self.corner(j) == step(
                        old(self).corner(j),
                        target[j].x as int,
                        target[j].y as int,
                        diagonal_sq as int,
                    ),
                forall|j: int| 0 <= j < i ==> (#[trigger] self.positions[j]).in_range(),
                forall|j: int| 0 <= j < i ==> VELOCITY_FLOOR <= #[trigger] self.vels[j] <= ONE,
                forall|j: int| i <= j < 4 ==> #[trigger] self.positions[j] == old(self).positions[j],
                forall|j: int| i <= j < 4 ==> #[trigger] self.vels[j] == old(self).vels[j],
                old(self).valid(),
        {
            let ghost before = *self;
            let (position, velocity) = advance_corner(
                self.positions[i],
                self.vels[i],
                target[i],
                diagonal_sq,
            );
            self.positions[i] = position;
            self.vels[i] = velocity;
            assert forall|j: int| 0 <= j < i + 1 implies #[trigger] self.corner(j) == step(
                old(self).corner(j),
                target[j].x as int,
                target[j].y as int,
                diagonal_sq as int,
            ) by {
                if j < i {
                    assert(self.positions[j] == before.positions[j]);
                    assert(self.vels[j] == before.vels[j]);
                    assert(self.corner(j) == before.corner(j));
                }
            }
        }
    }
}

/// The target of a cursor of the given shape at `point` of the grid.
pub open spec fn cursor_target(
    shape: CursorShape,
    size_info: SizeModel,
    thickness_ratio: int,
    point: Point,
    is_wide: bool,
) -> Seq<Vec2> {
    let origin = cell_origin(size_info, point);
    target_quad_of(
        shape,
        origin.x,
        origin.y,
        size_info.cell_width,
        size_info.cell_height,
        thickness_ratio,
        is_wide,
    )
}

impl CursorRects {
    /// Moves each corner one frame toward the quad of a cursor of the given
    /// shape at `point` of the grid.
    pub fn update(
        &mut self,
        shape: CursorShape,
        size_info: &SizeInfo,
        thickness: i64,
        point: Point,
        is_wide: bool,
    )
        requires
            old(self).valid(),
            -RATIO_MAX <= thickness <= RATIO_MAX,
            point.line <= GRID_MAX,
            point.column <= GRID_MAX,
        ensures
            follows(
                *old(self),
                *final(self),
                cursor_target(shape, size_info@, thickness as int, point, is_wide),
                size_info@.diagonal_sq(),
            ),
            final(self).valid(),
            forall|i: int| 0 <= i < 4 ==> VELOCITY_FLOOR <= #[trigger] final(self).vels[i] <= ONE,
    {
        let cell_width = size_info.cell_width();
        let cell_height = size_info.cell_height();
        assert(0 <= point.column * cell_width <= 655_350_000_000_000) by (nonlinear_arith)
            requires
                0 <= point.column <= 65_535,
                0 < cell_width <= 10_000_000_000,
        ;
        assert(0 <= point.line * cell_height <= 655_350_000_000_000) by (nonlinear_arith)
            requires
                0 <= point.line <= 65_535,
                0 < cell_height <= 10_000_000_000,
        ;
        let x = (point.column as i64) * cell_width + size_info.padding_x();
        let y = (point.line as i64) * cell_height + size_info.padding_y();
        let target = target_quad(shape, x, y, cell_width, cell_height, thickness, is_wide);
        self.advance(&target, size_info);
    }
}

impl Default for CursorRects {
    /// The state before the first frame.
    fn default() -> (state: Self)
        ensures
            state == CursorRects::zeroed(),
            state.valid(),
    {
        CursorRects {
            vels: [0i64, 0i64, 0i64, 0i64],
            positions: [
                QuadPoint { x: 0, y: 0 },
                QuadPoint { x: 0, y: 0 },
                QuadPoint { x: 0, y: 0 },
                QuadPoint { x: 0, y: 0 },
            ],
        }
    }
}

impl From<RenderQuad> for CursorRects {
    /// The state that a cursor starts from: the corners are not taken from
    /// the quad but set to the origin, from where the first frames bring them
    /// in.
    fn from(rect: RenderQuad) -> (state: Self) {
        CursorRects::default()
    }
}

impl vstd::std_specs::convert::FromSpecImpl<RenderQuad> for CursorRects {
    open spec fn obeys_from_spec() -> bool {
        true
    }

    open spec fn from_spec(rect: RenderQuad) -> Self {
        CursorRects::zeroed()
    }
}

/// What can be drawn as a quad, frame after frame.
pub trait IntoRects {
    /// Whether the next frame can be drawn at this thickness.
    spec fn drawable(&self, thickness: i64) -> bool;

    /// Advances by one frame and gives the quad to draw for it. The quad is
    /// in range, and the frame after it can be drawn as well.
    fn quads(&mut self, size_info: &SizeInfo, thickness: i64) -> (quad: RenderQuad)
        requires
            old(self).drawable(thickness),
        ensures
            final(self).drawable(thickness),
            quad.in_range(),
    ;
}

impl RenderableCursor {
    /// Whether the next frame can be drawn at this thickness.
    pub fn is_drawable(&self, thickness: i64) -> (b: bool)
        ensures
            b == self.drawable(thickness),
    {
        self.data.is_valid() && self.point.line <= GRID_MAX && self.point.column <= GRID_MAX
            && -RATIO_MAX <= thickness && thickness <= RATIO_MAX
    }
}

impl IntoRects for RenderableCursor {
    /// The smoothing state is valid, the cursor is on the grid that the crate
    /// can address, and the thickness is within its limit.
    open spec fn drawable(&self, thickness: i64) -> bool {
        &&& self.data.valid()
        &&& self.point.line <= GRID_MAX
        &&& self.point.column <= GRID_MAX
        &&& -RATIO_MAX <= thickness <= RATIO_MAX
    }

    /// Moves the smoothing state one frame toward the cursor's target and
    /// gives the quad at its corners, opaque and in the cursor's colour.
    fn quads(&mut self, size_info: &SizeInfo, thickness: i64) -> (quad: RenderQuad)
        ensures
            follows(
                old(self).data,
                final(self).data,
                cursor_target(
                    old(self).shape,
                    size_info@,
                    thickness as int,
                    old(self).point,
                    old(self).is_wide,
                ),
                size_info@.diagonal_sq(),
            ),
            final(self).shape == old(self).shape,
            final(self).point == old(self).point,
            final(self).is_wide == old(self).is_wide,
            final(self).color == old(self).color,
            quad.points == final(self).data.positions,
            quad.color == old(self).color,
            quad.alpha == ONE,
    {
        let shape = self.shape();
        let point = self.point();
        let is_wide = self.is_wide();
        self.data.update(shape, size_info, thickness, point, is_wide);
        RenderQuad::new(self.data.positions, self.color(), ONE)
    }
}

} // verus!
