use vstd::prelude::*;

verus! {

/// Width and height, in blocks, of one terrain chunk.
pub const CHUNK_SIZE: i32 = 32;

/// A two-dimensional integer position (a block position in the world, or the
/// position of a chunk in the chunk grid).
#[derive(Clone, Copy, Debug, PartialEq, Eq, Structural)]
pub struct IVec2 {
    pub x: i32,
    pub y: i32,
}

impl IVec2 {
    pub fn new(x: i32, y: i32) -> (r: IVec2)
        ensures
            r.x == x,
            r.y == y,
    {
        IVec2 { x, y }
    }
}

/// Integer division that rounds towards zero, as Rust's `/` on signed integers does.
pub open spec fn trunc_div(a: int, b: int) -> int
    recommends
        b > 0,
{
    if a >= 0 {
        a / b
    } else {
        -((-a) / b)
    }
}

/// The chunk that a block position belongs to: each coordinate divided by the
/// chunk size, rounded towards zero.
pub open spec fn chunk_of(wpos: IVec2) -> IVec2 {
    IVec2 { x: trunc_div(wpos.x as int, CHUNK_SIZE as int) as i32, y: trunc_div(wpos.y as int, CHUNK_SIZE as int) as i32 }
}

/// The chunk position of a block position: each coordinate is divided by the
/// chunk size with Rust's integer division, which rounds towards zero.
pub fn chunk_pos(wpos: IVec2) -> (r: IVec2)
    ensures
        r == chunk_of(wpos),
        0 <= wpos.x ==> 32 * r.x <= wpos.x < 32 * r.x + 32,
        wpos.x < 0 ==> 32 * r.x - 32 < wpos.x <= 32 * r.x && r.x <= 0,
        0 <= wpos.y ==> 32 * r.y <= wpos.y < 32 * r.y + 32,
        wpos.y < 0 ==> 32 * r.y - 32 < wpos.y <= 32 * r.y && r.y <= 0,
{
    IVec2 { x: wpos.x / CHUNK_SIZE, y: wpos.y / CHUNK_SIZE }
}

/// Squared Euclidean distance between two positions, over the integers.
pub open spec fn dist_sq(a: IVec2, b: IVec2) -> int {
    (a.x - b.x) * (a.x - b.x) + (a.y - b.y) * (a.y - b.y)
}

pub open spec fn fits_i32(v: int) -> bool {
    i32::MIN <= v <= i32::MAX
}

/// The squared distance between `a` and `b` can be computed in `i32` arithmetic
/// without overflow: both coordinate differences and the final sum fit.
pub open spec fn dist_sq_fits(a: IVec2, b: IVec2) -> bool {
    &&& fits_i32(a.x - b.x)
    &&& fits_i32(a.y - b.y)
    &&& dist_sq(a, b) <= i32::MAX
}

/// `vek::Vec2::<i32>::distance_squared`: the difference of the two vectors,
/// squared component by component and summed, all in `i32`. The contract claims
/// that, where nothing overflows, the result is the exact squared distance.
#[verifier::external_body]
pub(crate) fn vek_distance_squared(a: IVec2, b: IVec2) -> (r: i32)
    requires
        dist_sq_fits(a, b),
    ensures
        r == dist_sq(a, b),
        r == (a.x - b.x) * (a.x - b.x) + (a.y - b.y) * (a.y - b.y),
{
    vek::Vec2::new(a.x, a.y).distance_squared(vek::Vec2::new(b.x, b.y))
}

/// The offset of `wpos` from the chunk that it drains into, or the zero offset
/// when there is no downhill chunk.
pub open spec fn downhill_offset_of(wpos: IVec2, downhill: Option<IVec2>) -> IVec2 {
    match downhill {
        Some(d) => IVec2 { x: (wpos.x - d.x) as i32, y: (wpos.y - d.y) as i32 },
        None => IVec2 { x: 0, y: 0 },
    }
}

pub open spec fn downhill_offset_fits(wpos: IVec2, downhill: Option<IVec2>) -> bool {
    downhill matches Some(d) ==> fits_i32(wpos.x - d.x) && fits_i32(wpos.y - d.y)
}

/// `wpos - downhill.unwrap_or(wpos)`, component by component.
pub fn downhill_offset(wpos: IVec2, downhill: Option<IVec2>) -> (r: IVec2)
    requires
        downhill_offset_fits(wpos, downhill),
    ensures
        r == downhill_offset_of(wpos, downhill),
        downhill matches Some(d) ==> r.x == wpos.x - d.x && r.y == wpos.y - d.y,
        downhill is None ==> r.x == 0 && r.y == 0,
{
    let d = match downhill {
        Some(d) => d,
        None => wpos,
    };
    IVec2 { x: wpos.x - d.x, y: wpos.y - d.y }
}

/// Every block position lies within one chunk width of its chunk's origin, on
/// the side of the origin away from zero: rounding towards zero never moves a
/// coordinate past zero nor by a full chunk.
pub proof fn lemma_chunk_origin_near(wpos: IVec2)
    ensures
        ({
            let c = chunk_of(wpos);
            &&& 0 <= wpos.x ==> 0 <= CHUNK_SIZE * c.x <= wpos.x
            &&& wpos.x < 0 ==> wpos.x <= CHUNK_SIZE * c.x <= 0
            &&& 0 <= wpos.y ==> 0 <= CHUNK_SIZE * c.y <= wpos.y
            &&& wpos.y < 0 ==> wpos.y <= CHUNK_SIZE * c.y <= 0
            &&& -CHUNK_SIZE < wpos.x - CHUNK_SIZE * c.x < CHUNK_SIZE
            &&& -CHUNK_SIZE < wpos.y - CHUNK_SIZE * c.y < CHUNK_SIZE
        }),
{
}

/// A block position with non-negative coordinates lies inside the chunk that
/// `chunk_pos` gives for it.
pub proof fn lemma_chunk_contains(wpos: IVec2)
    requires
        wpos.x >= 0,
        wpos.y >= 0,
    ensures
        ({
            let c = chunk_of(wpos);
            &&& CHUNK_SIZE * c.x <= wpos.x < CHUNK_SIZE * c.x + CHUNK_SIZE
            &&& CHUNK_SIZE * c.y <= wpos.y < CHUNK_SIZE * c.y + CHUNK_SIZE
        }),
{
}

/// The distance used to compare positions is the squared Euclidean distance:
/// the sum of the squares of the coordinate differences.
pub proof fn lemma_dist_sq_is_euclidean(a: IVec2, b: IVec2)
    ensures
        dist_sq(a, b) == (a.x - b.x) * (a.x - b.x) + (a.y - b.y) * (a.y - b.y),
        dist_sq(IVec2 { x: 3, y: 3 }, IVec2 { x: 0, y: 0 }) == 18,
        dist_sq(IVec2 { x: 0, y: 5 }, IVec2 { x: 0, y: 0 }) == 25,
{
    assert(dist_sq(IVec2 { x: 3, y: 3 }, IVec2 { x: 0, y: 0 }) == 3 * 3 + 3 * 3);
    assert(dist_sq(IVec2 { x: 0, y: 5 }, IVec2 { x: 0, y: 0 }) == 0 * 0 + 5 * 5);
}

/// Squared distances are never negative, and are zero only between equal positions.
pub proof fn lemma_dist_sq_zero(a: IVec2, b: IVec2)
    ensures
        dist_sq(a, b) >= 0,
        dist_sq(a, b) == 0 <==> a == b,
{
    let dx = a.x - b.x;
    let dy = a.y - b.y;
    assert(dx * dx >= 0 && dy * dy >= 0) by (nonlinear_arith);
    assert(dx * dx + dy * dy == 0 ==> dx == 0 && dy == 0) by (nonlinear_arith);
    if dx == 0 && dy == 0 {
        assert(a == b);
    }
}

} // verus!
