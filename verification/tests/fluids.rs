use physicsengine::fluid::FluidError;
use physicsengine::fluid::FluidGrid;
use physicsengine::fluid::CELL_COUNT;
use physicsengine::fluid::GRID_SIZE;

#[test]
fn test_velocity_diffusion() {
    let mut fluid = FluidGrid::new();
    fluid
        .add_velocity(64, 64, 1.0f64.to_bits(), 0.0f64.to_bits())
        .unwrap();
    fluid.velocity_step();

    let center_idx = 64 * GRID_SIZE + 64;
    assert!(f64::from_bits(fluid.velocity_x()[center_idx]) < 1.0);
}

#[test]
fn test_divergence() {
    let mut fluid = FluidGrid::new();
    fluid
        .add_velocity(64, 64, 1.0f64.to_bits(), 1.0f64.to_bits())
        .unwrap();
    let divergence = fluid.compute_divergence();
    let center_idx = 64 * GRID_SIZE + 64;
    // The stencil at a cell reads only its neighbours, so the impulse shows
    // as outflow at the cells beside the source, not at the source itself.
    assert_eq!(f64::from_bits(divergence[center_idx]), 0.0);
    assert_eq!(f64::from_bits(divergence[64 * GRID_SIZE + 63]), 0.5);
    assert_eq!(f64::from_bits(divergence[63 * GRID_SIZE + 64]), 0.5);
    assert_eq!(f64::from_bits(divergence[64 * GRID_SIZE + 65]), -0.5);
    assert_eq!(f64::from_bits(divergence[65 * GRID_SIZE + 64]), -0.5);
}

#[test]
fn damping_shrinks_the_impulse() {
    let mut fluid = FluidGrid::new();
    fluid
        .add_velocity(64, 64, 1.0f64.to_bits(), 0.0f64.to_bits())
        .unwrap();
    fluid.damping_step();
    let center_idx = 64 * GRID_SIZE + 64;
    let v = f64::from_bits(fluid.velocity_x()[center_idx]);
    assert_eq!(v, 1.0 * 0.001);
    assert!(v.abs() <= 1.0);
    // every other cell held zero, and zero stays zero under damping
    assert_eq!(f64::from_bits(fluid.velocity_x()[0]), 0.0);
    assert_eq!(f64::from_bits(fluid.velocity_y()[center_idx]), 0.0);
}

#[test]
fn advection_samples_the_damped_snapshot() {
    let impulses = [(64usize, 64usize, -200000.0f64), (66, 64, 7000.0)];

    let mut fluid = FluidGrid::new();
    let mut reference = FluidGrid::new();
    for &(x, y, vx) in impulses.iter() {
        fluid
            .add_velocity(x, y, vx.to_bits(), 0.0f64.to_bits())
            .unwrap();
        reference
            .add_velocity(x, y, vx.to_bits(), 0.0f64.to_bits())
            .unwrap();
    }
    reference.damping_step();
    let damped: Vec<u64> = reference.velocity_x().clone();

    fluid.velocity_step();

    // every post-advection sample is some pre-advection damped sample
    for i in 0..CELL_COUNT {
        let v = fluid.velocity_x()[i];
        assert!(damped.iter().any(|d| *d == v));
    }
    // the centre cell backtracks two cells to the right:
    // 64 - (-200000.0 * 0.001) * 0.01 lands in cell 66
    let center_idx = 64 * GRID_SIZE + 64;
    assert_eq!(
        f64::from_bits(fluid.velocity_x()[center_idx]),
        7000.0 * 0.001
    );
    // densities are carried along untouched
    assert_eq!(fluid.density()[center_idx], 0);
}

#[test]
fn corner_impulse_saturates_at_the_boundary() {
    // an outward backtrack at the low corner truncates to coordinate 0
    let mut fluid = FluidGrid::new();
    fluid
        .add_velocity(0, 0, 5.0f64.to_bits(), 5.0f64.to_bits())
        .unwrap();
    fluid.velocity_step();
    let expected = (5.0f64 * 0.001).to_bits();
    assert_eq!(fluid.velocity_x()[0], expected);
    assert_eq!(fluid.velocity_y()[0], expected);

    // and past the far corner the source clamps to GRID_SIZE - 1
    let mut far = FluidGrid::new();
    far.add_velocity(
        127,
        127,
        (-300000.0f64).to_bits(),
        (-300000.0f64).to_bits(),
    )
    .unwrap();
    far.velocity_step();
    let far_idx = 127 * GRID_SIZE + 127;
    let far_expected = (-300000.0f64 * 0.001).to_bits();
    assert_eq!(far.velocity_x()[far_idx], far_expected);
    assert_eq!(far.velocity_y()[far_idx], far_expected);
}

#[test]
fn divergence_of_zero_field_is_exactly_zero() {
    let fluid = FluidGrid::new();
    let divergence = fluid.compute_divergence();
    assert_eq!(divergence.len(), CELL_COUNT);
    for d in divergence {
        assert_eq!(f64::from_bits(d), 0.0);
    }
}

#[test]
fn divergence_left_edge_pads_with_zero() {
    // a uniform rightward flow in column 1: at column 0 the stencil has no
    // left neighbour and takes it as zero, so the estimate is 0.5 * vx
    let mut fluid = FluidGrid::new();
    for y in 0..GRID_SIZE {
        fluid
            .add_velocity(1, y, 2.0f64.to_bits(), 0.0f64.to_bits())
            .unwrap();
    }
    let divergence = fluid.compute_divergence();
    for y in 0..GRID_SIZE {
        assert_eq!(f64::from_bits(divergence[y * GRID_SIZE]), 1.0);
    }
}

#[test]
fn repeated_steps_are_bit_identical() {
    let impulses = [
        (64usize, 64usize, 1.5f64, -2.5f64),
        (0, 0, 3.25, 0.125),
        (127, 126, -1.0e300, 1.0e-300),
        (1, 127, 123456.789, -0.0),
    ];
    let mut a = FluidGrid::new();
    let mut b = FluidGrid::new();
    for &(x, y, vx, vy) in impulses.iter() {
        a.add_velocity(x, y, vx.to_bits(), vy.to_bits()).unwrap();
        b.add_velocity(x, y, vx.to_bits(), vy.to_bits()).unwrap();
    }
    for _ in 0..3 {
        a.velocity_step();
        b.velocity_step();
    }
    assert_eq!(a.velocity_x(), b.velocity_x());
    assert_eq!(a.velocity_y(), b.velocity_y());
    assert_eq!(a.density(), b.density());
}

#[test]
fn add_velocity_rejects_cells_outside_the_grid() {
    let mut fluid = FluidGrid::new();
    assert_eq!(
        fluid.add_velocity(128, 0, 1.0f64.to_bits(), 0),
        Err(FluidError::OutOfRange)
    );
    assert_eq!(
        fluid.add_velocity(0, 128, 0, 1.0f64.to_bits()),
        Err(FluidError::OutOfRange)
    );
    assert_eq!(
        fluid.add_velocity(usize::MAX, usize::MAX, 0, 0),
        Err(FluidError::OutOfRange)
    );
    // the field is left untouched by a rejected impulse
    for i in 0..CELL_COUNT {
        assert_eq!(fluid.velocity_x()[i], 0);
        assert_eq!(fluid.velocity_y()[i], 0);
    }
    assert!(fluid
        .add_velocity(127, 127, 1.0f64.to_bits(), 1.0f64.to_bits())
        .is_ok());
}

#[test]
fn add_velocity_accumulates() {
    let mut fluid = FluidGrid::new();
    fluid
        .add_velocity(10, 20, 1.0f64.to_bits(), 0.5f64.to_bits())
        .unwrap();
    fluid
        .add_velocity(10, 20, 2.0f64.to_bits(), 0.25f64.to_bits())
        .unwrap();
    let idx = 20 * GRID_SIZE + 10;
    assert_eq!(f64::from_bits(fluid.velocity_x()[idx]), 3.0);
    assert_eq!(f64::from_bits(fluid.velocity_y()[idx]), 0.75);
}
