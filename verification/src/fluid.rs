//! The velocity/density grid and its verified update pipeline.
//!
//! A `FluidGrid` owns three dense arrays of binary64 bit patterns over a
//! fixed square lattice, cell `(x, y)` at flat index `y * GRID_SIZE + x`.
//! One tick first damps every velocity sample, then advects the damped field
//! semi-Lagrangially against a frozen snapshot of itself; a divergence query
//! produces a fresh central-difference estimate with zero-padded boundaries.

use crate::scalar::bits_add;
use crate::scalar::bits_mul;
use crate::scalar::bits_of_coord;
use crate::scalar::bits_sub;
use crate::scalar::cell_of_bits;
use crate::scalar::add_bits;
use crate::scalar::cell_bits;
use crate::scalar::coord_bits;
use crate::scalar::mul_bits;
use crate::scalar::sub_bits;
use crate::scalar::DT_BITS;
use crate::scalar::HALF_BITS;
use crate::scalar::VISCOSITY_BITS;
use crate::scalar::ZERO_BITS;
use vstd::pervasive::VecAdditionalExecFns;
use vstd::prelude::*;

verus! {

/// Number of cells along one side of the square grid.
pub const GRID_SIZE: usize = 128;

/// Total number of cells of the grid.
pub const CELL_COUNT: usize = GRID_SIZE * GRID_SIZE;

/// The all-zero field: every sample is the bit pattern of `0.0`.
pub open spec fn zero_field() -> Seq<u64> {
    Seq::new(CELL_COUNT as nat, |i: int| ZERO_BITS)
}

/// The damped field: every velocity sample scaled by the viscosity factor.
pub open spec fn damped(v: Seq<u64>) -> Seq<u64> {
    v.map_values(|s: u64| bits_mul(s, VISCOSITY_BITS))
}

/// The cell coordinate a sample at grid coordinate `c` backtracks to under
/// velocity `vel`: the truncation of `c - vel * dt`, before clamping.
pub open spec fn backtracked(c: usize, vel: u64) -> usize {
    cell_of_bits(bits_sub(bits_of_coord(c), bits_mul(vel, DT_BITS)))
}

/// A truncated coordinate saturated to the grid: values past the far edge
/// stop at `GRID_SIZE - 1` (truncation already saturated low values at `0`).
pub open spec fn clamped(c: usize) -> int {
    if c >= GRID_SIZE {
        GRID_SIZE - 1
    } else {
        c as int
    }
}

/// The cell that cell `i` samples during advection, both of its coordinates
/// backtracked by the velocity pair at `i` and clamped to the grid.
pub open spec fn source_cell(vx: Seq<u64>, vy: Seq<u64>, i: int) -> int {
    let sx = clamped(backtracked((i % (GRID_SIZE as int)) as usize, vx[i]));
    let sy = clamped(backtracked((i / (GRID_SIZE as int)) as usize, vy[i]));
    sy * GRID_SIZE + sx
}

/// The advected field: every cell takes the snapshot value at its source
/// cell, the backtracking driven by the snapshot velocity pair `(vx, vy)`.
pub open spec fn advected(field: Seq<u64>, vx: Seq<u64>, vy: Seq<u64>) -> Seq<u64> {
    Seq::new(field.len(), |i: int| field[source_cell(vx, vy, i)])
}

/// The velocity-x field after one full tick: damping, then advection
/// against the damped snapshot.
pub open spec fn stepped_vx(vx: Seq<u64>, vy: Seq<u64>) -> Seq<u64> {
    advected(damped(vx), damped(vx), damped(vy))
}

/// The velocity-y field after one full tick: damping, then advection
/// against the damped snapshot.
pub open spec fn stepped_vy(vx: Seq<u64>, vy: Seq<u64>) -> Seq<u64> {
    advected(damped(vy), damped(vx), damped(vy))
}

/// The velocity-x sample of the right neighbour of cell `i`, zero past the
/// boundary.
pub open spec fn right_sample(vx: Seq<u64>, i: int) -> u64 {
    if i % (GRID_SIZE as int) + 1 < GRID_SIZE {
        vx[i + 1]
    } else {
        ZERO_BITS
    }
}

/// The velocity-x sample of the left neighbour of cell `i`, zero past the
/// boundary.
pub open spec fn left_sample(vx: Seq<u64>, i: int) -> u64 {
    if i % (GRID_SIZE as int) > 0 {
        vx[i - 1]
    } else {
        ZERO_BITS
    }
}

/// The velocity-y sample of the lower neighbour of cell `i`, zero past the
/// boundary.
pub open spec fn down_sample(vy: Seq<u64>, i: int) -> u64 {
    if i / (GRID_SIZE as int) + 1 < GRID_SIZE {
        vy[i + GRID_SIZE]
    } else {
        ZERO_BITS
    }
}

/// The velocity-y sample of the upper neighbour of cell `i`, zero past the
/// boundary.
pub open spec fn up_sample(vy: Seq<u64>, i: int) -> u64 {
    if i / (GRID_SIZE as int) > 0 {
        vy[i - GRID_SIZE]
    } else {
        ZERO_BITS
    }
}

/// The central-difference divergence estimate at cell `i`:
/// `0.5 * ((vx[right] - vx[left]) + (vy[down] - vy[up]))`, with missing
/// neighbours contributing zero.
pub open spec fn divergence_at(vx: Seq<u64>, vy: Seq<u64>, i: int) -> u64 {
    bits_mul(
        HALF_BITS,
        bits_add(
            bits_sub(right_sample(vx, i), left_sample(vx, i)),
            bits_sub(down_sample(vy, i), up_sample(vy, i)),
        ),
    )
}

/// The divergence estimate over the whole grid.
pub open spec fn divergence_field(vx: Seq<u64>, vy: Seq<u64>) -> Seq<u64> {
    Seq::new(CELL_COUNT as nat, |i: int| divergence_at(vx, vy, i))
}

/// A grid cell was addressed outside `[0, GRID_SIZE)`.
#[derive(Clone, Copy, Debug, PartialEq, Eq, Structural)]
pub enum FluidError {
    OutOfRange,
}

/// The square velocity/density field.
#[derive(Clone, Debug)]
pub struct FluidGrid {
    velocity_x: Vec<u64>,
    velocity_y: Vec<u64>,
    density: Vec<u64>,
}

impl FluidGrid {
    /// The velocity-x samples, as a sequence of bit patterns.
    pub closed spec fn vx(&self) -> Seq<u64> {
        self.velocity_x@
    }

    /// The velocity-y samples, as a sequence of bit patterns.
    pub closed spec fn vy(&self) -> Seq<u64> {
        self.velocity_y@
    }

    /// The density samples, as a sequence of bit patterns.
    pub closed spec fn rho(&self) -> Seq<u64> {
        self.density@
    }

    /// The three arrays each hold exactly one sample per cell.
    pub open spec fn wf(&self) -> bool {
        &&& self.vx().len() == CELL_COUNT
        &&& self.vy().len() == CELL_COUNT
        &&& self.rho().len() == CELL_COUNT
    }

    /// Creates a grid with every velocity and density sample zero.
    pub fn new() -> (grid: Self)
        ensures
            grid.wf(),
            grid.vx() == zero_field(),
            grid.vy() == zero_field(),
            grid.rho() == zero_field(),
    {
        let grid = FluidGrid {
            velocity_x: zeros(),
            velocity_y: zeros(),
            density: zeros(),
        };
        proof {
            assert(grid.vx() =~= zero_field());
            assert(grid.vy() =~= zero_field());
            assert(grid.rho() =~= zero_field());
        }
        grid
    }

    /// Adds an impulse `(dvx, dvy)` to the velocity pair of cell `(x, y)`,
    /// or fails with `OutOfRange` when the cell lies outside the grid,
    /// leaving the field untouched.
    pub fn add_velocity(&mut self, x: usize, y: usize, dvx: u64, dvy: u64) -> (result: Result<
        (),
        FluidError,
    >)
        requires
            old(self).wf(),
        ensures
            final(self).wf(),
            x < GRID_SIZE && y < GRID_SIZE ==> {
                let idx = y * GRID_SIZE + x;
                &&& result is Ok
                &&& final(self).vx() == old(self).vx().update(
                    idx,
                    bits_add(old(self).vx()[idx], dvx),
                )
                &&& final(self).vy() == old(self).vy().update(
                    idx,
                    bits_add(old(self).vy()[idx], dvy),
                )
                &&& final(self).rho() == old(self).rho()
            },
            !(x < GRID_SIZE && y < GRID_SIZE) ==> {
                &&& result == Err::<(), FluidError>(FluidError::OutOfRange)
                &&& *final(self) == *old(self)
            },
    {
        if x < GRID_SIZE && y < GRID_SIZE {
            let idx = y * GRID_SIZE + x;
            let sx = add_bits(self.velocity_x[idx], dvx);
            self.velocity_x.set(idx, sx);
            let sy = add_bits(self.velocity_y[idx], dvy);
            self.velocity_y.set(idx, sy);
            Ok(())
        } else {
            Err(FluidError::OutOfRange)
        }
    }

    /// Damping stage: scales every velocity sample by the viscosity factor,
    /// cell by cell, with no cross-cell dependency; densities are untouched.
    /// A sample at rest stays at rest: damping never creates motion.
    pub fn damping_step(&mut self)
        requires
            old(self).wf(),
        ensures
            final(self).wf(),
            final(self).vx() == damped(old(self).vx()),
            final(self).vy() == damped(old(self).vy()),
            final(self).rho() == old(self).rho(),
            forall|j: int|
                0 <= j < CELL_COUNT && old(self).vx()[j] == ZERO_BITS ==> final(self).vx()[j]
                    == ZERO_BITS,
            forall|j: int|
                0 <= j < CELL_COUNT && old(self).vy()[j] == ZERO_BITS ==> final(self).vy()[j]
                    == ZERO_BITS,
    {
        let ghost orig = *self;
        let mut i: usize = 0;
        while i < CELL_COUNT
            invariant
                orig.wf(),
                i <= CELL_COUNT,
                self.velocity_x@.len() == CELL_COUNT,
                self.velocity_y@.len() == CELL_COUNT,
                self.density@ == orig.rho(),
                forall|j: int|
                    0 <= j < i ==> self.velocity_x@[j] == bits_mul(orig.vx()[j], VISCOSITY_BITS),
                forall|j: int| i <= j < CELL_COUNT ==> self.velocity_x@[j] == orig.vx()[j],
                forall|j: int|
                    0 <= j < i ==> self.velocity_y@[j] == bits_mul(orig.vy()[j], VISCOSITY_BITS),
                forall|j: int| i <= j < CELL_COUNT ==> self.velocity_y@[j] == orig.vy()[j],
                forall|j: int|
                    0 <= j < i && orig.vx()[j] == ZERO_BITS ==> self.velocity_x@[j] == ZERO_BITS,
                forall|j: int|
                    0 <= j < i && orig.vy()[j] == ZERO_BITS ==> self.velocity_y@[j] == ZERO_BITS,
            decreases CELL_COUNT - i,
        {
            let dx = mul_bits(self.velocity_x[i], VISCOSITY_BITS);
            self.velocity_x.set(i, dx);
            let dy = mul_bits(self.velocity_y[i], VISCOSITY_BITS);
            self.velocity_y.set(i, dy);
            i += 1;
        }
        proof {
            assert(self.vx() =~= damped(orig.vx()));
            assert(self.vy() =~= damped(orig.vy()));
        }
    }

    /// Advection stage: every cell takes the value its backtracked, clamped
    /// source cell holds in a snapshot of the whole field, so no write can
    /// be observed by a sibling cell's read; densities are untouched.
    pub fn advection_step(&mut self)
        requires
            old(self).wf(),
        ensures
            final(self).wf(),
            final(self).vx() == advected(old(self).vx(), old(self).vx(), old(self).vy()),
            final(self).vy() == advected(old(self).vy(), old(self).vx(), old(self).vy()),
            final(self).rho() == old(self).rho(),
    {
        let ghost orig = *self;
        let snap_x = snapshot(&self.velocity_x);
        let snap_y = snapshot(&self.velocity_y);
        let mut i: usize = 0;
        while i < CELL_COUNT
            invariant
                orig.wf(),
                i <= CELL_COUNT,
                snap_x@ == orig.vx(),
                snap_y@ == orig.vy(),
                self.velocity_x@.len() == CELL_COUNT,
                self.velocity_y@.len() == CELL_COUNT,
                self.density@ == orig.rho(),
                forall|j: int|
                    0 <= j < i ==> self.velocity_x@[j] == orig.vx()[source_cell(
                        orig.vx(),
                        orig.vy(),
                        j,
                    )],
                forall|j: int|
                    0 <= j < i ==> self.velocity_y@[j] == orig.vy()[source_cell(
                        orig.vx(),
                        orig.vy(),
                        j,
                    )],
            decreases CELL_COUNT - i,
        {
            let x = i % GRID_SIZE;
            let y = i / GRID_SIZE;
            let sx_bits = sub_bits(coord_bits(x), mul_bits(snap_x[i], DT_BITS));
            let sy_bits = sub_bits(coord_bits(y), mul_bits(snap_y[i], DT_BITS));
            let tx = cell_bits(sx_bits);
            let cx = if tx >= GRID_SIZE {
                GRID_SIZE - 1
            } else {
                tx
            };
            let ty = cell_bits(sy_bits);
            let cy = if ty >= GRID_SIZE {
                GRID_SIZE - 1
            } else {
                ty
            };
            let src = cy * GRID_SIZE + cx;
            proof {
                assert(src == source_cell(orig.vx(), orig.vy(), i as int));
            }
            let vx_sample = snap_x[src];
            self.velocity_x.set(i, vx_sample);
            let vy_sample = snap_y[src];
            self.velocity_y.set(i, vy_sample);
            i += 1;
        }
        proof {
            assert(self.vx() =~= advected(orig.vx(), orig.vx(), orig.vy()));
            assert(self.vy() =~= advected(orig.vy(), orig.vx(), orig.vy()));
        }
    }

    /// One tick: the damping stage runs to completion over the whole grid,
    /// then the advection stage reads a snapshot taken after damping.
    /// A field fully at rest stays at rest.
    pub fn velocity_step(&mut self)
        requires
            old(self).wf(),
        ensures
            final(self).wf(),
            final(self).vx() == stepped_vx(old(self).vx(), old(self).vy()),
            final(self).vy() == stepped_vy(old(self).vx(), old(self).vy()),
            final(self).rho() == old(self).rho(),
            (forall|j: int|
                0 <= j < CELL_COUNT ==> old(self).vx()[j] == ZERO_BITS && old(self).vy()[j]
                    == ZERO_BITS) ==> (forall|i: int|
                0 <= i < CELL_COUNT ==> final(self).vx()[i] == ZERO_BITS && final(self).vy()[i]
                    == ZERO_BITS),
    {
        let ghost orig = *self;
        self.damping_step();
        let ghost mid = *self;
        self.advection_step();
        proof {
            if forall|j: int|
                0 <= j < CELL_COUNT ==> orig.vx()[j] == ZERO_BITS && orig.vy()[j] == ZERO_BITS {
                assert forall|i: int|
                    0 <= i < CELL_COUNT implies self.vx()[i] == ZERO_BITS && self.vy()[i]
                    == ZERO_BITS by {
                    let src = source_cell(mid.vx(), mid.vy(), i);
                    assert(0 <= src < CELL_COUNT);
                    assert(self.vx()[i] == mid.vx()[src]);
                    assert(self.vy()[i] == mid.vy()[src]);
                }
            }
        }
    }

    /// Divergence query: a fresh array with the central-difference
    /// divergence estimate of the current velocity field at every cell,
    /// neighbours past the boundary contributing zero. Of the all-zero
    /// field, every estimate is exactly the bit pattern of `0.0`.
    pub fn compute_divergence(&self) -> (div: Vec<u64>)
        requires
            self.wf(),
        ensures
            div@ == divergence_field(self.vx(), self.vy()),
            (forall|j: int|
                0 <= j < CELL_COUNT ==> self.vx()[j] == ZERO_BITS && self.vy()[j] == ZERO_BITS)
                ==> (forall|i: int| 0 <= i < CELL_COUNT ==> div@[i] == ZERO_BITS),
    {
        let ghost all_zero = forall|j: int|
            0 <= j < CELL_COUNT ==> self.vx()[j] == ZERO_BITS && self.vy()[j] == ZERO_BITS;
        let mut div: Vec<u64> = Vec::new();
        let mut i: usize = 0;
        while i < CELL_COUNT
            invariant
                self.wf(),
                i <= CELL_COUNT,
                div@.len() == i,
                all_zero == (forall|j: int|
                    0 <= j < CELL_COUNT ==> self.vx()[j] == ZERO_BITS && self.vy()[j]
                        == ZERO_BITS),
                forall|j: int| 0 <= j < i ==> div@[j] == divergence_at(self.vx(), self.vy(), j),
                all_zero ==> forall|j: int| 0 <= j < i ==> div@[j] == ZERO_BITS,
            decreases CELL_COUNT - i,
        {
            let x = i % GRID_SIZE;
            let y = i / GRID_SIZE;
            let right = if x + 1 < GRID_SIZE {
                self.velocity_x[i + 1]
            } else {
                ZERO_BITS
            };
            let left = if x > 0 {
                self.velocity_x[i - 1]
            } else {
                ZERO_BITS
            };
            let down = if y + 1 < GRID_SIZE {
                self.velocity_y[i + GRID_SIZE]
            } else {
                ZERO_BITS
            };
            let up = if y > 0 {
                self.velocity_y[i - GRID_SIZE]
            } else {
                ZERO_BITS
            };
            proof {
                assert(right == right_sample(self.vx(), i as int));
                assert(left == left_sample(self.vx(), i as int));
                assert(down == down_sample(self.vy(), i as int));
                assert(up == up_sample(self.vy(), i as int));
            }
            let d = mul_bits(HALF_BITS, add_bits(sub_bits(right, left), sub_bits(down, up)));
            div.push(d);
            i += 1;
        }
        proof {
            assert(div@ =~= divergence_field(self.vx(), self.vy()));
        }
        div
    }

    /// Borrows the velocity-x samples.
    pub fn velocity_x(&self) -> (r: &Vec<u64>)
        ensures
            r@ == self.vx(),
    {
        &self.velocity_x
    }

    /// Borrows the velocity-y samples.
    pub fn velocity_y(&self) -> (r: &Vec<u64>)
        ensures
            r@ == self.vy(),
    {
        &self.velocity_y
    }

    /// Borrows the density samples.
    pub fn density(&self) -> (r: &Vec<u64>)
        ensures
            r@ == self.rho(),
    {
        &self.density
    }
}

/// Advection bounds: the source cell of every cell lies inside the grid, so
/// a post-advection sample always equals some pre-advection sample of the
/// snapshot, never a value read from outside it.
pub proof fn lemma_advection_in_grid(field: Seq<u64>, vx: Seq<u64>, vy: Seq<u64>, i: int)
    requires
        field.len() == CELL_COUNT,
        0 <= i < CELL_COUNT,
    ensures
        0 <= source_cell(vx, vy, i) < CELL_COUNT,
        advected(field, vx, vy)[i] == field[source_cell(vx, vy, i)],
        exists|j: int| 0 <= j < CELL_COUNT && advected(field, vx, vy)[i] == field[j],
{
    assert(0 <= source_cell(vx, vy, i) < CELL_COUNT);
    let j = source_cell(vx, vy, i);
    assert(0 <= j < CELL_COUNT && advected(field, vx, vy)[i] == field[j]);
}

/// Boundary clamping is idempotent and saturating: a truncated coordinate,
/// once clamped, lies inside the grid and clamps to itself again.
pub proof fn lemma_clamp_idempotent(c: usize)
    ensures
        0 <= clamped(c) < GRID_SIZE,
        clamped(clamped(c) as usize) == clamped(c),
{
}

/// Boundary zero-padding: in the leftmost column the divergence estimate
/// never reads a `left` neighbour; the missing sample enters as zero.
pub proof fn lemma_divergence_left_edge(vx: Seq<u64>, vy: Seq<u64>, i: int)
    requires
        0 <= i < CELL_COUNT,
        i % (GRID_SIZE as int) == 0,
    ensures
        left_sample(vx, i) == ZERO_BITS,
        divergence_at(vx, vy, i) == bits_mul(
            HALF_BITS,
            bits_add(
                bits_sub(right_sample(vx, i), ZERO_BITS),
                bits_sub(down_sample(vy, i), up_sample(vy, i)),
            ),
        ),
{
}

/// Determinism: one tick is a pure function of the pre-step field, so two
/// runs from bit-identical fields give bit-identical results, however the
/// per-cell work is partitioned.
pub proof fn lemma_step_deterministic(vx1: Seq<u64>, vy1: Seq<u64>, vx2: Seq<u64>, vy2: Seq<u64>)
    requires
        vx1 == vx2,
        vy1 == vy2,
    ensures
        stepped_vx(vx1, vy1) == stepped_vx(vx2, vy2),
        stepped_vy(vx1, vy1) == stepped_vy(vx2, vy2),
{
}

/// A frozen, fully materialized copy of one sample array.
fn snapshot(v: &Vec<u64>) -> (r: Vec<u64>)
    ensures
        r@ == v@,
{
    let mut r: Vec<u64> = Vec::new();
    let mut i: usize = 0;
    while i < v.len()
        invariant
            i <= v@.len(),
            r@.len() == i,
            forall|j: int| 0 <= j < i ==> r@[j] == v@[j],
        decreases v@.len() - i,
    {
        let s = v[i];
        r.push(s);
        i += 1;
    }
    proof {
        assert(r@ =~= v@);
    }
    r
}

/// A fresh array of one zero sample per cell.
fn zeros() -> (v: Vec<u64>)
    ensures
        v@.len() == CELL_COUNT,
        forall|i: int| 0 <= i < CELL_COUNT ==> v@[i] == ZERO_BITS,
{
    let mut v: Vec<u64> = Vec::new();
    while v.len() < CELL_COUNT
        invariant
            v@.len() <= CELL_COUNT,
            forall|i: int| 0 <= i < v@.len() ==> v@[i] == ZERO_BITS,
        decreases CELL_COUNT - v@.len(),
    {
        v.push(ZERO_BITS);
    }
    v
}

} // verus!
