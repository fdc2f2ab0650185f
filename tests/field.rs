use mass_flow::field::{apply_stencil, upwind, DoubleBuffer};
use mass_flow::grid::GridShape;

#[test]
fn upwind_picks_the_side_the_flow_comes_from() {
    assert_eq!(upwind(true, 1, 2, 3), (3, 2));
    assert_eq!(upwind(false, 1, 2, 3), (2, 1));
}

#[test]
fn stencil_writes_interior_only() {
    let shape = GridShape::new(4, 3).unwrap();
    let src: Vec<i64> = (0..12).collect();
    let mut out: Vec<i64> = vec![-1; 12];
    apply_stencil(&shape, &src, &mut out, |i, c, l, r, u, d| {
        (i as i64) * 1000 + c * 10000 + (r - l) * 100 + (d - u)
    });
    let expected_5 = 5 * 1000 + 5 * 10000 + 2 * 100 + 8;
    let expected_6 = 6 * 1000 + 6 * 10000 + 2 * 100 + 8;
    assert_eq!(
        out,
        vec![-1, -1, -1, -1, -1, expected_5, expected_6, -1, -1, -1, -1, -1]
    );
}

#[test]
fn flow_stencil_boundary_stays_zero() {
    // A rotated central difference of a noise-like field, written into a
    // freshly zeroed buffer: the boundary keeps its zero vectors.
    let shape = GridShape::new(5, 5).unwrap();
    let noise: Vec<f32> = (0..25).map(|i| ((i * 7 % 11) as f32) * 0.1 - 0.5).collect();
    let mut flow: Vec<(f32, f32)> = vec![(0.0, 0.0); 25];
    apply_stencil(&shape, &noise, &mut flow, |_, _, l, r, u, d| (d - u, -(r - l)));
    for y in 0..5 {
        for x in 0..5 {
            let v = flow[shape.index(x, y)];
            if shape.is_interior(x, y) {
                let i = y * 5 + x;
                assert_eq!(v, (noise[i + 5] - noise[i - 5], -(noise[i + 1] - noise[i - 1])));
            } else {
                assert_eq!(v, (0.0, 0.0));
            }
        }
    }
}

fn advect_rule(flow: &[(f32, f32)]) -> impl Fn(usize, f32, f32, f32, f32, f32) -> f32 + '_ {
    move |i, c, l, r, u, d| {
        let (fx, fy) = flow[i];
        let (ax, bx) = upwind(fx < 0.0, l, c, r);
        let (ay, by) = upwind(fy < 0.0, u, c, d);
        let diff = fx * (ax - bx) + fy * (ay - by);
        c - 0.5 * diff
    }
}

#[test]
fn zero_flow_leaves_density_unchanged() {
    let shape = GridShape::new(6, 5).unwrap();
    let initial: Vec<f32> = (0..30).map(|i| (i % 7) as f32 / 7.0).collect();
    let flow = vec![(0.0f32, 0.0f32); 30];
    let mut buffers = DoubleBuffer::new(shape, initial.clone());
    buffers.advance(advect_rule(&flow));
    assert_eq!(buffers.current(), &initial);
    buffers.advance(advect_rule(&flow));
    assert_eq!(buffers.current(), &initial);
}

#[test]
fn spike_moves_with_rightward_flow() {
    let shape = GridShape::new(5, 5).unwrap();
    let mut initial = vec![0.5f32; 25];
    initial[2 * 5 + 2] = 1.0;
    let mut flow = vec![(0.0f32, 0.0f32); 25];
    for y in 1..4 {
        for x in 1..4 {
            flow[y * 5 + x] = (0.5, 0.0);
        }
    }
    let mut buffers = DoubleBuffer::new(shape, initial.clone());
    buffers.advance(advect_rule(&flow));
    let after = buffers.current();
    assert!(after[2 * 5 + 2] < 1.0);
    assert!(after[2 * 5 + 3] > 0.5);
    assert_eq!(after[2 * 5 + 2], 0.875);
    assert_eq!(after[2 * 5 + 3], 0.625);
    for y in 0..5 {
        for x in 0..5 {
            if !shape.is_interior(x, y) {
                assert_eq!(after[y * 5 + x], 0.5);
            }
        }
    }
}

#[test]
fn boundary_survives_many_steps() {
    let shape = GridShape::new(4, 4).unwrap();
    let initial: Vec<i64> = (0..16).collect();
    let mut buffers = DoubleBuffer::new(shape, initial.clone());
    for _ in 0..5 {
        buffers.advance(|_, c, l, r, u, d| c + l + r + u + d);
    }
    let after = buffers.current();
    for i in [0usize, 1, 2, 3, 4, 7, 8, 11, 12, 13, 14, 15] {
        assert_eq!(after[i], initial[i]);
    }
    assert_ne!(after[5], initial[5]);
}
