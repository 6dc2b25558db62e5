use state_space::Fx;
use state_space::Mat;
use state_space::StateSpace;
use state_space::SysVec;

/// 0.1 in fixed point.
const TENTH: i64 = 100_000;

fn raws_of(v: &[Fx]) -> Vec<i64> {
    v.iter().map(|f| f.raw()).collect()
}

/// The first-order test system: A = [-1], B = [1], C = [1], D = [0],
/// dt = 0.1, x0 = 0, u = 1.
fn siso_model() -> StateSpace<1, 1, 1> {
    let mut sys: StateSpace<1, 1, 1> = StateSpace::new();
    sys.set_a(Mat::from_rows(vec![vec![Fx::from_int(-1)]]));
    sys.set_b(Mat::from_rows(vec![vec![Fx::from_int(1)]]));
    sys.set_c(Mat::from_rows(vec![vec![Fx::from_int(1)]]));
    sys.set_dt(Fx::from_raw(TENTH));
    sys.set_u(SysVec::from_val(Fx::from_int(1)));
    sys
}

#[test]
fn new_yields_zero_matrices_and_unit_dt() {
    let sys: StateSpace<2, 3, 1> = StateSpace::new();
    let a = sys.get_a();
    for i in 0..3 {
        for j in 0..3 {
            assert_eq!(a.get(i, j), Fx::zero());
        }
    }
    let b = sys.get_b();
    for i in 0..3 {
        for j in 0..2 {
            assert_eq!(b.get(i, j), Fx::zero());
        }
    }
    let c = sys.get_c();
    for j in 0..3 {
        assert_eq!(c.get(0, j), Fx::zero());
    }
    let d = sys.get_d();
    for j in 0..2 {
        assert_eq!(d.get(0, j), Fx::zero());
    }
    assert_eq!(sys.dt, Fx::one());
    assert_eq!(sys.get_u(), vec![Fx::zero(); 2]);
    assert_eq!(sys.get_x(), vec![Fx::zero(); 3]);
    assert_eq!(sys.get_y(), vec![Fx::zero(); 1]);
}

#[test]
fn model_default_matches_new() {
    let d: StateSpace<1, 2, 1> = Default::default();
    let n: StateSpace<1, 2, 1> = StateSpace::new();
    assert_eq!(d.dt, n.dt);
    assert_eq!(d.get_x(), n.get_x());
}

#[test]
fn first_step_integrates_and_output_lags() {
    let mut sys = siso_model();
    sys.update();
    // x1 = 0 + (-1*0 + 1*1)*0.1 = 0.1; y0 = 1*0 + 0*1 = 0.
    assert_eq!(raws_of(&sys.get_x()), vec![TENTH]);
    assert_eq!(raws_of(&sys.get_y()), vec![0]);
}

#[test]
fn second_step_from_first() {
    let mut sys = siso_model();
    sys.update();
    sys.update();
    // x_dot = -0.1 + 1 = 0.9; x2 = 0.1 + 0.9*0.1 = 0.19; y1 = 1*0.1 = 0.1.
    assert_eq!(raws_of(&sys.get_x()), vec![190_000]);
    assert_eq!(raws_of(&sys.get_y()), vec![TENTH]);
}

#[test]
fn feedthrough_reaches_output_immediately() {
    // A = B = C = 0, D = [2], u = 3: y = D*u = 6 from the first step on,
    // while the state stays at zero.
    let mut sys: StateSpace<1, 1, 1> = StateSpace::new();
    sys.set_d(Mat::from_rows(vec![vec![Fx::from_int(2)]]));
    sys.set_u(SysVec::from_val(Fx::from_int(3)));
    sys.update();
    assert_eq!(raws_of(&sys.get_x()), vec![0]);
    assert_eq!(raws_of(&sys.get_y()), vec![6_000_000]);
}

#[test]
fn two_state_kinematic_step() {
    // A = [[0, 1], [0, 0]], x0 = [1, 2], dt = 0.5, C = identity:
    // x_dot = [2, 0]; x1 = [2, 2]; y = x0 = [1, 2].
    let mut sys: StateSpace<1, 2, 2> = StateSpace::new();
    sys.set_a(Mat::from_rows(vec![
        vec![Fx::zero(), Fx::from_int(1)],
        vec![Fx::zero(), Fx::zero()],
    ]));
    sys.set_c(Mat::identity());
    sys.set_dt(Fx::from_raw(500_000));
    let mut x0: SysVec<2> = SysVec::new();
    x0.set_val(vec![Fx::from_int(1), Fx::from_int(2)]);
    sys.set_x(x0);
    sys.update();
    assert_eq!(raws_of(&sys.get_x()), vec![2_000_000, 2_000_000]);
    assert_eq!(raws_of(&sys.get_y()), vec![1_000_000, 2_000_000]);
}

#[test]
fn update_clamps_state_to_its_bounds() {
    // B = [1], dt = 1, u = 10: an unbounded state would reach 10, but the
    // state's upper bound is 5.
    let mut sys: StateSpace<1, 1, 1> = StateSpace::new();
    sys.set_b(Mat::from_rows(vec![vec![Fx::from_int(1)]]));
    sys.set_u(SysVec::from_val(Fx::from_int(10)));
    sys.set_x(SysVec::from_scalars(
        Fx::zero(),
        Fx::from_int(-5),
        Fx::from_int(5),
    ));
    sys.update();
    assert_eq!(raws_of(&sys.get_x()), vec![5_000_000]);
}

#[test]
fn update_clamps_input_before_reading_and_it_persists() {
    // u = 5 under bounds [0, 1]: the step must read u as 1 and leave it
    // clamped.
    let mut sys: StateSpace<1, 1, 1> = StateSpace::new();
    sys.set_b(Mat::from_rows(vec![vec![Fx::from_int(1)]]));
    sys.set_u(SysVec::from_scalars(
        Fx::from_int(5),
        Fx::zero(),
        Fx::from_int(1),
    ));
    sys.update();
    assert_eq!(raws_of(&sys.get_u()), vec![1_000_000]);
    assert_eq!(raws_of(&sys.get_x()), vec![1_000_000]);
}

#[test]
fn setters_and_getters_round_trip() {
    let mut sys: StateSpace<1, 2, 1> = StateSpace::new();
    let a = Mat::from_rows(vec![
        vec![Fx::from_int(1), Fx::from_int(2)],
        vec![Fx::from_int(3), Fx::from_int(4)],
    ]);
    sys.set_a(a);
    let back = sys.get_a();
    assert_eq!(back.get(0, 0), Fx::from_int(1));
    assert_eq!(back.get(0, 1), Fx::from_int(2));
    assert_eq!(back.get(1, 0), Fx::from_int(3));
    assert_eq!(back.get(1, 1), Fx::from_int(4));
    let mut x: SysVec<2> = SysVec::new();
    x.set_val(vec![Fx::from_int(7), Fx::from_int(8)]);
    sys.set_x(x);
    assert_eq!(
        sys.get_x(),
        vec![Fx::from_int(7), Fx::from_int(8)]
    );
}

#[test]
fn identity_matrix_has_unit_diagonal() {
    let id: Mat<3, 3> = Mat::identity();
    for i in 0..3 {
        for j in 0..3 {
            let want = if i == j { Fx::one() } else { Fx::zero() };
            assert_eq!(id.get(i, j), want);
        }
    }
}

#[test]
fn identical_models_produce_identical_output_sequences() {
    let mut first = siso_model();
    let mut second = siso_model();
    let mut outputs_first: Vec<i64> = Vec::new();
    let mut outputs_second: Vec<i64> = Vec::new();
    for k in 0..10 {
        let u = Fx::from_raw(k * 250_000 - 1_000_000);
        first.set_u(SysVec::from_val(u));
        second.set_u(SysVec::from_val(u));
        first.update();
        second.update();
        outputs_first.extend(raws_of(&first.get_y()));
        outputs_second.extend(raws_of(&second.get_y()));
    }
    assert_eq!(outputs_first, outputs_second);
}
