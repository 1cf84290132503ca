use vstd::prelude::*;
use vstd::string::StringExecFns;
use crate::camera::Camera;
use crate::material::{Blend, Material, RenderStates};
use crate::render_target::Viewport;

verus! {

/// The number of vertices along one side of a water patch.
pub const VERTICES_PER_SIDE: usize = 33;

/// The fixed-point value that stands for a world-space length of one.
pub const UNIT: i64 = 1_000_000;

/// The largest magnitude of a world-space coordinate, length or amplitude
/// that the water surface accepts.
pub const COORD_LIMIT: i64 = 0x1000_0000_0000_0000;

/// A point or vector in the horizontal plane (`y` stands for world `z`).
#[derive(Clone, Copy, Debug, PartialEq, Eq, Structural)]
pub struct Point2 {
    pub x: i64,
    pub y: i64,
}

/// A point or vector in world space.
#[derive(Clone, Copy, Debug, PartialEq, Eq, Structural)]
pub struct Point3 {
    pub x: i64,
    pub y: i64,
    pub z: i64,
}

/// An axis-aligned bounding box.
#[derive(Clone, Copy, Debug, PartialEq, Eq, Structural)]
pub struct Aabb {
    pub min: Point3,
    pub max: Point3,
}

/// The parameters of one wave.
#[derive(Clone, Copy, Debug, PartialEq, Eq, Structural)]
pub struct WaveParameters {
    /// The distance between each top of the wave.
    pub wavelength: i64,
    /// The distance from the top or bottom of the wave to the average water height.
    pub amplitude: i64,
    /// The speed at which the waves move.
    pub speed: i64,
}

impl Default for WaveParameters {
    /// A wavelength of one unit, an amplitude of a hundredth and a speed of a half.
    fn default() -> (r: Self)
        ensures
            r.wavelength == UNIT,
            r.amplitude == UNIT / 100,
            r.speed == UNIT / 2,
    {
        WaveParameters { wavelength: UNIT, amplitude: UNIT / 100, speed: UNIT / 2 }
    }
}

pub open spec fn abs(v: int) -> int {
    if v < 0 {
        -v
    } else {
        v
    }
}

pub open spec fn min(a: int, b: int) -> int {
    if a <= b {
        a
    } else {
        b
    }
}

pub open spec fn max(a: int, b: int) -> int {
    if a >= b {
        a
    } else {
        b
    }
}

/// The largest amplitude among the four waves.
pub open spec fn max_amplitude(p: [WaveParameters; 4]) -> int {
    max(max(p@[0].amplitude as int, p@[1].amplitude as int), max(p@[2].amplitude as int, p@[3].amplitude as int))
}

/// Every amplitude is within `COORD_LIMIT` in magnitude.
pub open spec fn parameters_bounded(p: [WaveParameters; 4]) -> bool {
    forall|i: int| 0 <= i < 4 ==> abs(#[trigger] p@[i].amplitude as int) <= COORD_LIMIT
}

/// One tile of an animated water surface.
#[derive(Clone, Copy, Debug)]
pub struct WaterPatch {
    /// The animation time in milliseconds.
    pub time: u64,
    /// The center of the surface; `y` is its average height.
    pub center: Point3,
    pub parameters: [WaveParameters; 4],
    /// Where this tile starts, relative to the center.
    pub offset: Point2,
    /// The extent of this tile.
    pub size: Point2,
}

/// The bounding box of a patch: its tile in the horizontal plane, and
/// the largest amplitude above and below its height.
pub open spec fn aabb_of(p: WaterPatch) -> Aabb {
    let m = max_amplitude(p.parameters);
    let x0 = p.center.x + p.offset.x;
    let z0 = p.center.z + p.offset.y;
    Aabb {
        min: Point3 {
            x: x0 as i64,
            y: min(p.center.y - m, p.center.y + m) as i64,
            z: z0 as i64,
        },
        max: Point3 {
            x: (x0 + p.size.x) as i64,
            y: max(p.center.y - m, p.center.y + m) as i64,
            z: (z0 + p.size.y) as i64,
        },
    }
}

impl WaterPatch {
    /// Coordinates, sizes and amplitudes are within `COORD_LIMIT`, and the
    /// size is not negative.
    pub open spec fn wf(&self) -> bool {
        &&& abs(self.center.x as int) <= COORD_LIMIT
        &&& abs(self.center.y as int) <= COORD_LIMIT
        &&& abs(self.center.z as int) <= COORD_LIMIT
        &&& abs(self.offset.x as int) <= COORD_LIMIT
        &&& abs(self.offset.y as int) <= COORD_LIMIT
        &&& 0 <= self.size.x <= COORD_LIMIT
        &&& 0 <= self.size.y <= COORD_LIMIT
        &&& parameters_bounded(self.parameters)
    }

    /// A patch at animation time 0.
    pub fn new(center: Point3, parameters: [WaveParameters; 4], offset: Point2, size: Point2) -> (r: Self)
        ensures
            r == (WaterPatch { time: 0, center, parameters, offset, size }),
    {
        WaterPatch { time: 0, center, parameters, offset, size }
    }

    /// The largest amplitude among the four waves.
    pub fn max_amplitude(&self) -> (r: i64)
        ensures
            r == max_amplitude(self.parameters),
    {
        let mut m = self.parameters[0].amplitude;
        if self.parameters[1].amplitude > m {
            m = self.parameters[1].amplitude;
        }
        if self.parameters[2].amplitude > m {
            m = self.parameters[2].amplitude;
        }
        if self.parameters[3].amplitude > m {
            m = self.parameters[3].amplitude;
        }
        m
    }

    /// The bounding box of the patch with its current parameters.
    pub fn aabb(&self) -> (r: Aabb)
        requires
            self.wf(),
        ensures
            r == aabb_of(*self),
    {
        let m = self.max_amplitude();
        assert(abs(m as int) <= COORD_LIMIT) by {
            assert(parameters_bounded(self.parameters));
            assert(abs(self.parameters@[0].amplitude as int) <= COORD_LIMIT);
            assert(abs(self.parameters@[1].amplitude as int) <= COORD_LIMIT);
            assert(abs(self.parameters@[2].amplitude as int) <= COORD_LIMIT);
            assert(abs(self.parameters@[3].amplitude as int) <= COORD_LIMIT);
        }
        let x0 = self.center.x + self.offset.x;
        let z0 = self.center.z + self.offset.y;
        let low = self.center.y - m;
        let high = self.center.y + m;
        let (y0, y1) = if low <= high { (low, high) } else { (high, low) };
        Aabb {
            min: Point3 { x: x0, y: y0, z: z0 },
            max: Point3 { x: x0 + self.size.x, y: y1, z: z0 + self.size.y },
        }
    }
}

/// Every vertical half-extent of a patch's bounding box is its largest wave
/// amplitude, when no amplitude is negative.
pub proof fn aabb_half_extent_is_max_amplitude(p: WaterPatch)
    requires
        p.wf(),
        forall|i: int| 0 <= i < 4 ==> #[trigger] p.parameters@[i].amplitude >= 0,
    ensures
        aabb_of(p).max.y - aabb_of(p).min.y == 2 * max_amplitude(p.parameters),
        aabb_of(p).max.y - p.center.y == max_amplitude(p.parameters),
        p.center.y - aabb_of(p).min.y == max_amplitude(p.parameters),
{
    assert(p.parameters@[0].amplitude >= 0);
    assert(abs(p.parameters@[0].amplitude as int) <= COORD_LIMIT);
    assert(abs(p.parameters@[1].amplitude as int) <= COORD_LIMIT);
    assert(abs(p.parameters@[2].amplitude as int) <= COORD_LIMIT);
    assert(abs(p.parameters@[3].amplitude as int) <= COORD_LIMIT);
}


/// The six vertex indices of grid cell (`r`, `c`): triangles
/// (r, c)-(r + 1, c)-(r, c + 1) and (r, c + 1)-(r + 1, c)-(r + 1, c + 1),
/// where vertex (r, c) has index `r + c * 33`.
pub open spec fn cell_indices(r: int, c: int) -> Seq<u32> {
    let s = VERTICES_PER_SIDE as int;
    seq![
        (r + c * s) as u32,
        (r + 1 + c * s) as u32,
        (r + (c + 1) * s) as u32,
        (r + (c + 1) * s) as u32,
        (r + 1 + c * s) as u32,
        (r + 1 + (c + 1) * s) as u32,
    ]
}

/// The `k`-th index of the patch mesh: cells come row by row, six indices each.
pub open spec fn mesh_index(k: int) -> u32 {
    let cell = k / 6;
    cell_indices(cell / 32, cell % 32)[k % 6]
}

/// The `k`-th vertex of the patch mesh: vertex `r * 33 + c` lies at
/// (`r * d`, 0, `c * d`) for vertex distance `d`.
pub open spec fn mesh_position(vertex_distance: int, k: int) -> Point3 {
    Point3 {
        x: ((k / VERTICES_PER_SIDE as int) * vertex_distance) as i64,
        y: 0,
        z: ((k % VERTICES_PER_SIDE as int) * vertex_distance) as i64,
    }
}

proof fn lemma_div_mod(x: int, d: int, q: int, r: int)
    requires
        d > 0,
        0 <= r < d,
        x == q * d + r,
    ensures
        x / d == q,
        x % d == r,
{
    vstd::arithmetic::div_mod::lemma_fundamental_div_mod_converse(x, d, q, r);
}

/// The grid row of vertex index `i`.
pub open spec fn grid_row(i: int) -> int {
    i % VERTICES_PER_SIDE as int
}

/// The grid column of vertex index `i`.
pub open spec fn grid_column(i: int) -> int {
    i / VERTICES_PER_SIDE as int
}

/// The winding of the triangle `a`, `b`, `c` in grid coordinates: twice its
/// signed area, positive when the corners turn from the row axis towards the
/// column axis.
pub open spec fn winding(a: int, b: int, c: int) -> int {
    (grid_row(b) - grid_row(a)) * (grid_column(c) - grid_column(a)) - (grid_column(b) - grid_column(a)) * (
    grid_row(c) - grid_row(a))
}

/// Both triangles of every grid cell wind the same way, each covering half
/// the cell.
pub proof fn cell_triangles_wind_alike(r: int, c: int)
    requires
        0 <= r < 32,
        0 <= c < 32,
    ensures
        winding(cell_indices(r, c)[0] as int, cell_indices(r, c)[1] as int, cell_indices(r, c)[2] as int) == 1,
        winding(cell_indices(r, c)[3] as int, cell_indices(r, c)[4] as int, cell_indices(r, c)[5] as int) == 1,
{
    let s = 33int;
    lemma_div_mod(r + c * s, s, c, r);
    lemma_div_mod(r + 1 + c * s, s, c, r + 1);
    lemma_div_mod(r + (c + 1) * s, s, c + 1, r);
    lemma_div_mod(r + 1 + (c + 1) * s, s, c + 1, r + 1);
    assert(0 <= r + c * s && r + 1 + (c + 1) * s < 33 * 33) by (nonlinear_arith)
        requires 0 <= r < 32, 0 <= c < 32, s == 33;
    let v = cell_indices(r, c);
    assert(v[0] as int == r + c * s);
    assert(v[1] as int == r + 1 + c * s);
    assert(v[2] as int == r + (c + 1) * s);
    assert(v[3] as int == r + (c + 1) * s);
    assert(v[4] as int == r + 1 + c * s);
    assert(v[5] as int == r + 1 + (c + 1) * s);
    assert(grid_row(v[1] as int) - grid_row(v[0] as int) == 1);
    assert(grid_column(v[1] as int) - grid_column(v[0] as int) == 0);
    assert(grid_row(v[2] as int) - grid_row(v[0] as int) == 0);
    assert(grid_column(v[2] as int) - grid_column(v[0] as int) == 1);
    assert(grid_row(v[4] as int) - grid_row(v[3] as int) == 1);
    assert(grid_column(v[4] as int) - grid_column(v[3] as int) == -1);
    assert(grid_row(v[5] as int) - grid_row(v[3] as int) == 1);
    assert(grid_column(v[5] as int) - grid_column(v[3] as int) == 0);
}

/// The index buffer of a patch: two triangles for each of the 32 x 32 cells.
pub fn indices() -> (r: Vec<u32>)
    ensures
        r@.len() == 32 * 32 * 6,
        forall|k: int| 0 <= k < r@.len() ==> #[trigger] r@[k] == mesh_index(k),
        forall|k: int| 0 <= k < r@.len() ==> #[trigger] r@[k] < 33 * 33,
{
    let mut indices: Vec<u32> = Vec::new();
    let stride: u32 = VERTICES_PER_SIDE as u32;
    let last: u32 = stride - 1;
    let mut r: u32 = 0;
    while r < last
        invariant
            0 <= r <= last,
            stride == 33,
            last == 32,
            indices@.len() == r * 32 * 6,
            forall|k: int| 0 <= k < indices@.len() ==> #[trigger] indices@[k] == mesh_index(k),
        decreases last - r,
    {
        let mut c: u32 = 0;
        while c < last
            invariant
                0 <= r < last,
                0 <= c <= last,
                stride == 33,
                last == 32,
                indices@.len() == (r * 32 + c) * 6,
                forall|k: int| 0 <= k < indices@.len() ==> #[trigger] indices@[k] == mesh_index(k),
            decreases last - c,
        {
            let ghost base = indices@.len() as int;
            let ghost cell = (r * 32 + c) as int;
            indices.push(r + c * stride);
            indices.push(r + 1 + c * stride);
            indices.push(r + (c + 1) * stride);
            indices.push(r + (c + 1) * stride);
            indices.push(r + 1 + c * stride);
            indices.push(r + 1 + (c + 1) * stride);
            proof {
                lemma_div_mod(cell, 32, r as int, c as int);
                assert forall|k: int| 0 <= k < indices@.len() implies #[trigger] indices@[k]
                    == mesh_index(k) by {
                    if k >= base {
                        lemma_div_mod(k, 6, cell, k - base);
                    }
                }
            }
            c = c + 1;
        }
        r = r + 1;
    }
    assert forall|k: int| 0 <= k < indices@.len() implies #[trigger] indices@[k] < 33 * 33 by {
        let cell = k / 6;
        assert(0 <= cell < 1024);
        assert(0 <= cell / 32 < 32);
        assert(0 <= cell % 32 < 32);
        assert(indices@[k] == mesh_index(k));
    }
    indices
}

/// The vertex positions of a patch: a 33 x 33 grid with the given spacing.
pub fn positions(vertex_distance: i64) -> (r: Vec<Point3>)
    requires
        0 <= vertex_distance,
        32 * vertex_distance <= COORD_LIMIT,
    ensures
        r@.len() == 33 * 33,
        forall|k: int| 0 <= k < r@.len() ==> #[trigger] r@[k] == mesh_position(vertex_distance as int, k),
{
    let mut data: Vec<Point3> = Vec::new();
    let mut r: usize = 0;
    while r < VERTICES_PER_SIDE
        invariant
            0 <= r <= 33,
            0 <= vertex_distance,
            32 * vertex_distance <= COORD_LIMIT,
            data@.len() == r * 33,
            forall|k: int| 0 <= k < data@.len() ==> #[trigger] data@[k] == mesh_position(vertex_distance as int, k),
        decreases 33 - r,
    {
        let mut c: usize = 0;
        while c < VERTICES_PER_SIDE
            invariant
                0 <= r < 33,
                0 <= c <= 33,
                0 <= vertex_distance,
                32 * vertex_distance <= COORD_LIMIT,
                data@.len() == r * 33 + c,
                forall|k: int| 0 <= k < data@.len() ==> #[trigger] data@[k] == mesh_position(vertex_distance as int, k),
            decreases 33 - c,
        {
            assert(r * vertex_distance <= 32 * vertex_distance) by (nonlinear_arith)
                requires r < 33, 0 <= vertex_distance;
            assert(c * vertex_distance <= 32 * vertex_distance) by (nonlinear_arith)
                requires c < 33, 0 <= vertex_distance;
            let x = r as i64 * vertex_distance;
            let z = c as i64 * vertex_distance;
            let ghost k = data@.len() as int;
            data.push(Point3 { x, y: 0, z });
            proof {
                lemma_div_mod(k, 33, r as int, c as int);
            }
            c = c + 1;
        }
        r = r + 1;
    }
    data
}


/// The number of patches along one side of a surface of the given side
/// length: `ceil(side_length / (32 * vertex_distance))`, at least 1.
pub open spec fn patches_per_side(side_length: int, vertex_distance: int) -> int {
    let patch_size = 32 * vertex_distance;
    if side_length <= 0 {
        1
    } else {
        (side_length + patch_size - 1) / patch_size
    }
}

/// The offset from the center of the `k`-th of `n` tiles of size
/// `patch_size`: `k * patch_size - n * patch_size / 2`.
pub open spec fn tile_offset(n: int, patch_size: int, k: int) -> int {
    k * patch_size - n * patch_size / 2
}

/// The patch in column `ix` and row `iy` of an `n` x `n` tiling.
pub open spec fn tile(
    center: Point2,
    height: i64,
    parameters: [WaveParameters; 4],
    n: int,
    patch_size: int,
    ix: int,
    iy: int,
) -> WaterPatch {
    WaterPatch {
        time: 0,
        center: Point3 { x: center.x, y: height, z: center.y },
        parameters,
        offset: Point2 {
            x: tile_offset(n, patch_size, ix) as i64,
            y: tile_offset(n, patch_size, iy) as i64,
        },
        size: Point2 { x: patch_size as i64, y: patch_size as i64 },
    }
}

/// The patch in column `ix` and row `iy` of patches laid out column by column,
/// `n` to a column.
pub open spec fn patch_at(patches: Seq<WaterPatch>, n: int, ix: int, iy: int) -> WaterPatch {
    patches[ix * n + iy]
}

/// The vertex and index data that every patch of a water surface shares.
pub struct WaterMesh {
    pub positions: Vec<Point3>,
    pub indices: Vec<u32>,
}

/// A water surface with an applied material, tiled from patches that share
/// one mesh.
pub struct Water<M> {
    patches: Vec<WaterPatch>,
    mesh: WaterMesh,
    material: M,
}

proof fn lemma_patch_span(side_length: int, vertex_distance: int)
    requires
        0 < vertex_distance,
        32 * vertex_distance <= COORD_LIMIT,
        side_length <= COORD_LIMIT,
    ensures
        patches_per_side(side_length, vertex_distance) >= 1,
        patches_per_side(side_length, vertex_distance) * (32 * vertex_distance) <= 2 * COORD_LIMIT,
{
    let ps = 32 * vertex_distance;
    if side_length > 0 {
        let x = side_length + ps - 1;
        vstd::arithmetic::div_mod::lemma_fundamental_div_mod(x, ps);
        let n = x / ps;
        assert(n * ps == ps * n) by (nonlinear_arith);
        vstd::arithmetic::div_mod::lemma_mod_bound(x, ps);
        assert(n >= 1) by (nonlinear_arith)
            requires x == ps * n + x % ps, 0 <= x % ps < ps, x >= ps;
    }
}

impl<M> Water<M> {
    /// The patches, column by column.
    pub closed spec fn patches_spec(&self) -> Seq<WaterPatch> {
        self.patches@
    }

    /// The positions of the shared mesh.
    pub closed spec fn positions_spec(&self) -> Seq<Point3> {
        self.mesh.positions@
    }

    /// The indices of the shared mesh.
    pub closed spec fn indices_spec(&self) -> Seq<u32> {
        self.mesh.indices@
    }

    /// The material applied to every patch.
    pub closed spec fn material_spec(&self) -> M {
        self.material
    }

    /// Every patch is well formed.
    pub open spec fn wf(&self) -> bool {
        forall|i: int| 0 <= i < self.patches_spec().len() ==> #[trigger] self.patches_spec()[i].wf()
    }

    /// A water surface with the given material, average `height` and
    /// `center`, covering at least `side_length` along each side, with
    /// `vertex_distance` between vertices.
    pub fn new(
        material: M,
        height: i64,
        center: Point2,
        side_length: i64,
        vertex_distance: i64,
        parameters: [WaveParameters; 4],
    ) -> (r: Self)
        requires
            0 < vertex_distance,
            32 * vertex_distance <= COORD_LIMIT,
            side_length <= COORD_LIMIT,
            abs(height as int) <= COORD_LIMIT,
            abs(center.x as int) <= COORD_LIMIT,
            abs(center.y as int) <= COORD_LIMIT,
            parameters_bounded(parameters),
            patches_per_side(side_length as int, vertex_distance as int) * patches_per_side(
                side_length as int,
                vertex_distance as int,
            ) <= usize::MAX,
        ensures
            ({
                let n = patches_per_side(side_length as int, vertex_distance as int);
                &&& r.patches_spec().len() == n * n
                &&& forall|ix: int, iy: int|
                    0 <= ix < n && 0 <= iy < n ==> #[trigger] patch_at(r.patches_spec(), n, ix, iy)
                        == tile(center, height, parameters, n, 32 * vertex_distance, ix, iy)
            }),
            r.wf(),
            r.material_spec() == material,
            r.positions_spec().len() == 33 * 33,
            forall|k: int| 0 <= k < 33 * 33 ==> #[trigger] r.positions_spec()[k] == mesh_position(vertex_distance as int, k),
            r.indices_spec().len() == 32 * 32 * 6,
            forall|k: int| 0 <= k < 32 * 32 * 6 ==> #[trigger] r.indices_spec()[k] == mesh_index(k),
    {
        let ghost n_spec = patches_per_side(side_length as int, vertex_distance as int);
        proof {
            lemma_patch_span(side_length as int, vertex_distance as int);
        }
        let cells: i64 = VERTICES_PER_SIDE as i64 - 1;
        assert(cells == 32);
        let patch_size: i64 = vertex_distance * cells;
        let n: i64 = if side_length <= 0 {
            1
        } else {
            (side_length + patch_size - 1) / patch_size
        };
        assert(n == n_spec);
        assert(n <= n * n) by (nonlinear_arith) requires n >= 1;
        let half = n * patch_size / 2;
        let count: usize = n as usize;
        let mesh = WaterMesh { positions: positions(vertex_distance), indices: indices() };
        let mut patches: Vec<WaterPatch> = Vec::new();
        let mut ix: usize = 0;
        while ix < count
            invariant
                n == n_spec,
                count == n,
                n >= 1,
                n * n <= usize::MAX,
                patch_size == 32 * vertex_distance,
                0 < vertex_distance,
                patch_size <= COORD_LIMIT,
                n * patch_size <= 2 * COORD_LIMIT,
                half == n * patch_size / 2,
                abs(height as int) <= COORD_LIMIT,
                abs(center.x as int) <= COORD_LIMIT,
                abs(center.y as int) <= COORD_LIMIT,
                parameters_bounded(parameters),
                0 <= ix <= count,
                patches@.len() == ix * n,
                forall|i: int| 0 <= i < patches@.len() ==> #[trigger] patches@[i].wf(),
                forall|a: int, b: int|
                    0 <= a < ix && 0 <= b < n ==> #[trigger] patch_at(patches@, n as int, a, b)
                        == tile(center, height, parameters, n as int, patch_size as int, a, b),
            decreases count - ix,
        {
            let mut iy: usize = 0;
            while iy < count
                invariant
                    n == n_spec,
                    count == n,
                    n >= 1,
                    n * n <= usize::MAX,
                    patch_size == 32 * vertex_distance,
                    0 < vertex_distance,
                    patch_size <= COORD_LIMIT,
                    n * patch_size <= 2 * COORD_LIMIT,
                    half == n * patch_size / 2,
                    abs(height as int) <= COORD_LIMIT,
                    abs(center.x as int) <= COORD_LIMIT,
                    abs(center.y as int) <= COORD_LIMIT,
                    parameters_bounded(parameters),
                    0 <= ix < count,
                    0 <= iy <= count,
                    patches@.len() == ix * n + iy,
                    forall|i: int| 0 <= i < patches@.len() ==> #[trigger] patches@[i].wf(),
                    forall|a: int, b: int|
                        0 <= a < ix && 0 <= b < n ==> #[trigger] patch_at(patches@, n as int, a, b)
                            == tile(center, height, parameters, n as int, patch_size as int, a, b),
                    forall|b: int|
                        0 <= b < iy ==> #[trigger] patch_at(patches@, n as int, ix as int, b)
                            == tile(center, height, parameters, n as int, patch_size as int, ix as int, b),
                decreases count - iy,
            {
                assert(ix * patch_size <= n * patch_size) by (nonlinear_arith)
                    requires ix < n, patch_size > 0;
                assert(iy * patch_size <= n * patch_size) by (nonlinear_arith)
                    requires iy < n, patch_size > 0;
                assert((ix + 1) * patch_size <= n * patch_size) by (nonlinear_arith)
                    requires ix < n, patch_size > 0;
                assert((iy + 1) * patch_size <= n * patch_size) by (nonlinear_arith)
                    requires iy < n, patch_size > 0;
                let ox = (ix as i64) * patch_size - half;
                let oy = (iy as i64) * patch_size - half;
                let patch = WaterPatch::new(
                    Point3 { x: center.x, y: height, z: center.y },
                    parameters,
                    Point2 { x: ox, y: oy },
                    Point2 { x: patch_size, y: patch_size },
                );
                let ghost before = patches@;
                assert(ix * n + iy < n * n) by (nonlinear_arith)
                    requires ix < n, iy < n;
                patches.push(patch);
                proof {
                    assert forall|a: int, b: int|
                        0 <= a < ix && 0 <= b < n implies #[trigger] patch_at(patches@, n as int, a, b)
                            == tile(center, height, parameters, n as int, patch_size as int, a, b) by {
                        assert(a * n + b < ix * n) by (nonlinear_arith)
                            requires 0 <= a < ix, 0 <= b < n;
                        assert(patch_at(before, n as int, a, b) == tile(center, height, parameters, n as int, patch_size as int, a, b));
                    }
                    assert forall|b: int|
                        0 <= b < iy + 1 implies #[trigger] patch_at(patches@, n as int, ix as int, b)
                            == tile(center, height, parameters, n as int, patch_size as int, ix as int, b) by {
                        if b < iy {
                            assert(patch_at(before, n as int, ix as int, b) == tile(center, height, parameters, n as int, patch_size as int, ix as int, b));
                        }
                    }
                }
                iy = iy + 1;
            }
            proof {
                assert forall|a: int, b: int|
                    0 <= a < ix + 1 && 0 <= b < n implies #[trigger] patch_at(patches@, n as int, a, b)
                        == tile(center, height, parameters, n as int, patch_size as int, a, b) by {
                    if a == ix {
                        assert(patch_at(patches@, n as int, ix as int, b) == tile(center, height, parameters, n as int, patch_size as int, ix as int, b));
                    }
                }
                assert((ix + 1) * n == ix * n + n) by (nonlinear_arith);
            }
            ix = ix + 1;
        }
        Water { patches, mesh, material }
    }

    /// The patches, column by column.
    pub fn patches(&self) -> (r: &Vec<WaterPatch>)
        ensures
            r@ == self.patches_spec(),
    {
        &self.patches
    }

    /// The material applied to every patch.
    pub fn material(&self) -> (r: &M)
        ensures
            *r == self.material_spec(),
    {
        &self.material
    }

    /// The mesh that every patch shares.
    pub fn mesh(&self) -> (r: &WaterMesh)
        ensures
            r.positions@ == self.positions_spec(),
            r.indices@ == self.indices_spec(),
    {
        &self.mesh
    }

    /// Moves the center of every patch in the horizontal plane, to follow the
    /// camera and so simulate an infinite surface. Heights stay.
    pub fn set_center(&mut self, center: Point2)
        requires
            old(self).wf(),
            abs(center.x as int) <= COORD_LIMIT,
            abs(center.y as int) <= COORD_LIMIT,
        ensures
            final(self).wf(),
            final(self).patches_spec().len() == old(self).patches_spec().len(),
            forall|i: int| 0 <= i < old(self).patches_spec().len() ==> #[trigger] final(self).patches_spec()[i]
                == (WaterPatch {
                    center: Point3 { x: center.x, y: old(self).patches_spec()[i].center.y, z: center.y },
                    ..old(self).patches_spec()[i]
                }),
            final(self).material_spec() == old(self).material_spec(),
            final(self).positions_spec() == old(self).positions_spec(),
            final(self).indices_spec() == old(self).indices_spec(),
    {
        let ghost before = self.patches@;
        let mut i: usize = 0;
        while i < self.patches.len()
            invariant
                self.patches@.len() == before.len(),
                0 <= i <= before.len(),
                self.material == old(self).material,
                self.mesh == old(self).mesh,
                before == old(self).patches@,
                abs(center.x as int) <= COORD_LIMIT,
                abs(center.y as int) <= COORD_LIMIT,
                forall|j: int| 0 <= j < before.len() ==> #[trigger] before[j].wf(),
                forall|j: int| 0 <= j < i ==> #[trigger] self.patches@[j] == (WaterPatch {
                    center: Point3 { x: center.x, y: before[j].center.y, z: center.y },
                    ..before[j]
                }),
                forall|j: int| i <= j < before.len() ==> #[trigger] self.patches@[j] == before[j],
            decreases before.len() - i,
        {
            let mut patch = self.patches[i];
            patch.center.x = center.x;
            patch.center.z = center.y;
            self.patches.set(i, patch);
            i = i + 1;
        }
        assert forall|j: int| 0 <= j < self.patches@.len() implies #[trigger] self.patches@[j].wf() by {
            assert(before[j].wf());
        }
    }

    /// Sets the average height of every patch. Horizontal centers stay.
    pub fn set_height(&mut self, height: i64)
        requires
            old(self).wf(),
            abs(height as int) <= COORD_LIMIT,
        ensures
            final(self).wf(),
            final(self).patches_spec().len() == old(self).patches_spec().len(),
            forall|i: int| 0 <= i < old(self).patches_spec().len() ==> #[trigger] final(self).patches_spec()[i]
                == (WaterPatch {
                    center: Point3 { y: height, ..old(self).patches_spec()[i].center },
                    ..old(self).patches_spec()[i]
                }),
            final(self).material_spec() == old(self).material_spec(),
            final(self).positions_spec() == old(self).positions_spec(),
            final(self).indices_spec() == old(self).indices_spec(),
    {
        let ghost before = self.patches@;
        let mut i: usize = 0;
        while i < self.patches.len()
            invariant
                self.patches@.len() == before.len(),
                0 <= i <= before.len(),
                self.material == old(self).material,
                self.mesh == old(self).mesh,
                before == old(self).patches@,
                abs(height as int) <= COORD_LIMIT,
                forall|j: int| 0 <= j < before.len() ==> #[trigger] before[j].wf(),
                forall|j: int| 0 <= j < i ==> #[trigger] self.patches@[j] == (WaterPatch {
                    center: Point3 { y: height, ..before[j].center },
                    ..before[j]
                }),
                forall|j: int| i <= j < before.len() ==> #[trigger] self.patches@[j] == before[j],
            decreases before.len() - i,
        {
            let mut patch = self.patches[i];
            patch.center.y = height;
            self.patches.set(i, patch);
            i = i + 1;
        }
        assert forall|j: int| 0 <= j < self.patches@.len() implies #[trigger] self.patches@[j].wf() by {
            assert(before[j].wf());
        }
    }

    /// Sets the wave parameters of every patch.
    pub fn set_parameters(&mut self, parameters: [WaveParameters; 4])
        requires
            old(self).wf(),
            parameters_bounded(parameters),
        ensures
            final(self).wf(),
            final(self).patches_spec().len() == old(self).patches_spec().len(),
            forall|i: int| 0 <= i < old(self).patches_spec().len() ==> #[trigger] final(self).patches_spec()[i]
                == (WaterPatch { parameters, ..old(self).patches_spec()[i] }),
            final(self).material_spec() == old(self).material_spec(),
            final(self).positions_spec() == old(self).positions_spec(),
            final(self).indices_spec() == old(self).indices_spec(),
    {
        let ghost before = self.patches@;
        let mut i: usize = 0;
        while i < self.patches.len()
            invariant
                self.patches@.len() == before.len(),
                0 <= i <= before.len(),
                self.material == old(self).material,
                self.mesh == old(self).mesh,
                before == old(self).patches@,
                parameters_bounded(parameters),
                forall|j: int| 0 <= j < before.len() ==> #[trigger] before[j].wf(),
                forall|j: int| 0 <= j < i ==> #[trigger] self.patches@[j] == (WaterPatch {
                    parameters,
                    ..before[j]
                }),
                forall|j: int| i <= j < before.len() ==> #[trigger] self.patches@[j] == before[j],
            decreases before.len() - i,
        {
            let mut patch = self.patches[i];
            patch.parameters = parameters;
            self.patches.set(i, patch);
            i = i + 1;
        }
        assert forall|j: int| 0 <= j < self.patches@.len() implies #[trigger] self.patches@[j].wf() by {
            assert(before[j].wf());
        }
    }

    /// Sets the animation time, in milliseconds since some fixed start, of
    /// every patch.
    pub fn update_animation(&mut self, time: u64)
        requires
            old(self).wf(),
        ensures
            final(self).wf(),
            final(self).patches_spec().len() == old(self).patches_spec().len(),
            forall|i: int| 0 <= i < old(self).patches_spec().len() ==> #[trigger] final(self).patches_spec()[i]
                == (WaterPatch { time, ..old(self).patches_spec()[i] }),
            final(self).material_spec() == old(self).material_spec(),
            final(self).positions_spec() == old(self).positions_spec(),
            final(self).indices_spec() == old(self).indices_spec(),
    {
        let ghost before = self.patches@;
        let mut i: usize = 0;
        while i < self.patches.len()
            invariant
                self.patches@.len() == before.len(),
                0 <= i <= before.len(),
                self.material == old(self).material,
                self.mesh == old(self).mesh,
                before == old(self).patches@,
                forall|j: int| 0 <= j < before.len() ==> #[trigger] before[j].wf(),
                forall|j: int| 0 <= j < i ==> #[trigger] self.patches@[j] == (WaterPatch {
                    time,
                    ..before[j]
                }),
                forall|j: int| i <= j < before.len() ==> #[trigger] self.patches@[j] == before[j],
            decreases before.len() - i,
        {
            let mut patch = self.patches[i];
            patch.time = time;
            self.patches.set(i, patch);
            i = i + 1;
        }
        assert forall|j: int| 0 <= j < self.patches@.len() implies #[trigger] self.patches@[j].wf() by {
            assert(before[j].wf());
        }
    }
}


/// The vertex shader source of water patches: it displaces each vertex of
/// the shared grid by the sum of four waves.
pub const WATER_VERTEX_SOURCE: &'static str = "uniform mat4 viewProjection;\nuniform vec3 offset;\nuniform float time;\nuniform float wavelengths[4];\nuniform float amplitudes[4];\nuniform float speed[4];\n\nin vec3 position;\n\nout vec3 pos;\nout vec3 nor;\n\nvoid main()\n{\n    vec3 p = position + offset;\n    float height = float(0);\n    vec3 slope = vec3(0);\n    for (int i = 0; i < 4; i++) {\n        float k = float(6283) / (float(1000) * wavelengths[i]);\n        float phase = k * (p.x + p.z - speed[i] * time);\n        height += amplitudes[i] * sin(phase);\n        slope.x += amplitudes[i] * k * cos(phase);\n        slope.z += amplitudes[i] * k * cos(phase);\n    }\n    pos = vec3(p.x, p.y + height, p.z);\n    nor = normalize(vec3(-slope.x, 1, -slope.z));\n    gl_Position = viewProjection * vec4(pos, 1);\n}\n";

/// The per-patch uniform values of a water draw.
#[derive(Clone, Copy, Debug)]
pub struct WaterUniforms {
    /// Where the patch starts: its center moved by its offset.
    pub offset: Point3,
    /// The animation time in milliseconds.
    pub time: u64,
    pub wavelengths: [i64; 4],
    pub amplitudes: [i64; 4],
    pub speeds: [i64; 4],
}

/// Everything a draw of one water patch needs: the shader sources, the
/// uniform values, the fixed-function state, the viewport and the number of
/// indices to draw.
pub struct WaterDraw {
    pub vertex_source: String,
    pub fragment_source: String,
    pub uniforms: WaterUniforms,
    pub render_states: RenderStates,
    pub viewport: Viewport,
    pub element_count: usize,
}

/// The uniform values of a patch.
pub open spec fn uniforms_of(p: WaterPatch) -> WaterUniforms {
    WaterUniforms {
        offset: Point3 {
            x: (p.center.x + p.offset.x) as i64,
            y: p.center.y,
            z: (p.center.z + p.offset.y) as i64,
        },
        time: p.time,
        wavelengths: [
            p.parameters@[0].wavelength,
            p.parameters@[1].wavelength,
            p.parameters@[2].wavelength,
            p.parameters@[3].wavelength,
        ],
        amplitudes: [
            p.parameters@[0].amplitude,
            p.parameters@[1].amplitude,
            p.parameters@[2].amplitude,
            p.parameters@[3].amplitude,
        ],
        speeds: [
            p.parameters@[0].speed,
            p.parameters@[1].speed,
            p.parameters@[2].speed,
            p.parameters@[3].speed,
        ],
    }
}

impl WaterPatch {
    /// The uniform values of this patch.
    pub fn uniforms(&self) -> (r: WaterUniforms)
        requires
            self.wf(),
        ensures
            r == uniforms_of(*self),
    {
        let p = &self.parameters;
        WaterUniforms {
            offset: Point3 {
                x: self.center.x + self.offset.x,
                y: self.center.y,
                z: self.center.z + self.offset.y,
            },
            time: self.time,
            wavelengths: [p[0].wavelength, p[1].wavelength, p[2].wavelength, p[3].wavelength],
            amplitudes: [p[0].amplitude, p[1].amplitude, p[2].amplitude, p[3].amplitude],
            speeds: [p[0].speed, p[1].speed, p[2].speed, p[3].speed],
        }
    }

    /// The draw of this patch with `material`, seen through `camera`: the
    /// material's fragment shader with the water vertex shader, this patch's
    /// uniforms, the material's states with alpha blending forced on, and
    /// every index of the shared mesh.
    pub fn render_with_material<M: Material>(&self, material: &M, camera: &Camera, mesh: &WaterMesh) -> (r: WaterDraw)
        requires
            self.wf(),
        ensures
            r.vertex_source@ == WATER_VERTEX_SOURCE@,
            r.fragment_source@ == material.fragment_source_spec(),
            r.uniforms == uniforms_of(*self),
            r.render_states == (RenderStates { blend: Blend::Transparency, ..material.render_states_spec() }),
            r.element_count == mesh.indices@.len(),
    {
        let fragment_source = material.fragment_shader_source();
        let states = material.render_states();
        WaterDraw {
            vertex_source: String::from_str(WATER_VERTEX_SOURCE),
            fragment_source,
            uniforms: self.uniforms(),
            render_states: RenderStates { blend: Blend::Transparency, ..states },
            viewport: camera.viewport(),
            element_count: mesh.indices.len(),
        }
    }
}


impl<M: Material> Water<M> {
    /// The draws of every patch with the surface's material, in the order of
    /// the patches.
    pub fn render(&self, camera: &Camera) -> (r: Vec<WaterDraw>)
        requires
            self.wf(),
        ensures
            r@.len() == self.patches_spec().len(),
            forall|i: int| 0 <= i < r@.len() ==> {
                &&& (#[trigger] r@[i]).uniforms == uniforms_of(self.patches_spec()[i])
                &&& r@[i].vertex_source@ == WATER_VERTEX_SOURCE@
                &&& r@[i].fragment_source@ == self.material_spec().fragment_source_spec()
                &&& r@[i].render_states == (RenderStates {
                    blend: Blend::Transparency,
                    ..self.material_spec().render_states_spec()
                })
                &&& r@[i].element_count == self.indices_spec().len()
            },
    {
        let mut draws: Vec<WaterDraw> = Vec::new();
        let mut i: usize = 0;
        while i < self.patches.len()
            invariant
                self.wf(),
                0 <= i <= self.patches@.len(),
                draws@.len() == i,
                forall|j: int| 0 <= j < i ==> {
                    &&& (#[trigger] draws@[j]).uniforms == uniforms_of(self.patches@[j])
                    &&& draws@[j].vertex_source@ == WATER_VERTEX_SOURCE@
                    &&& draws@[j].fragment_source@ == self.material.fragment_source_spec()
                    &&& draws@[j].render_states == (RenderStates {
                        blend: Blend::Transparency,
                        ..self.material.render_states_spec()
                    })
                    &&& draws@[j].element_count == self.mesh.indices@.len()
                },
            decreases self.patches@.len() - i,
        {
            assert(self.patches_spec()[i as int].wf());
            let draw = self.patches[i].render_with_material(&self.material, camera, &self.mesh);
            draws.push(draw);
            i = i + 1;
        }
        draws
    }
}

} // verus!
