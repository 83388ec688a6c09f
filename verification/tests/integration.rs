use nalgebra::{Const, OVector};
use ode_solvers::{Rk4, System};
use three_body::dynamics::{attractions, derivative, Attraction};
use three_body::layout::{BODIES, STATE_LEN};
use three_body::params::{SimulationError, SimulationParameters};
use three_body::simulation::Simulation;
use three_body::state::{SimulationState, Planar};

type State = OVector<f32, Const<12>>;

struct Model {
    params: SimulationParameters,
}

fn pairwise_acceleration(dx: f32, dy: f32, other_mass: f32, g: f32, epsilon_sq: f32) -> (f32, f32) {
    let r2 = dx * dx + dy * dy + epsilon_sq;
    let inv_r = r2.sqrt().recip();
    let inv_r3 = inv_r * inv_r * inv_r;
    let s = g * other_mass * inv_r3;
    (s * dx, s * dy)
}

fn pull(a: &Attraction, g: f32, epsilon_sq: f32) -> (f32, f32) {
    let dx = f32::from_bits(a.source.x) - f32::from_bits(a.target.x);
    let dy = f32::from_bits(a.source.y) - f32::from_bits(a.target.y);
    pairwise_acceleration(dx, dy, f32::from_bits(a.source_mass), g, epsilon_sq)
}

fn to_state(y: &State) -> SimulationState {
    SimulationState { slots: std::array::from_fn(|i| y[i].to_bits()) }
}

fn to_vector(state: &SimulationState) -> State {
    State::from_fn(|i, _| f32::from_bits(state.slots[i]))
}

impl System<f32, State> for Model {
    fn system(&self, _t: f32, y: &State, dy: &mut State) {
        let g = f32::from_bits(self.params.g());
        let epsilon = f32::from_bits(self.params.epsilon());
        let epsilon_sq = epsilon * epsilon;
        let state = to_state(y);
        let mut accelerations = [Planar { x: 0, y: 0 }; BODIES];
        for body in 0..BODIES {
            let [first, second] = attractions(&state, &self.params, body);
            let (ax1, ay1) = pull(&first, g, epsilon_sq);
            let (ax2, ay2) = pull(&second, g, epsilon_sq);
            accelerations[body] = Planar { x: (ax1 + ax2).to_bits(), y: (ay1 + ay2).to_bits() };
        }
        let rate = derivative(&state, &accelerations);
        for i in 0..STATE_LEN {
            dy[i] = f32::from_bits(rate.slots[i]);
        }
    }
}

fn advance_and_get_snapshot(sim: &mut Simulation) -> Result<[(f32, f32); 3], SimulationError> {
    let dt = f32::from_bits(sim.dt());
    if !dt.is_finite() {
        return Err(SimulationError::NumericDivergence);
    }
    assert!(sim.ticks() < u64::MAX);
    let model = Model { params: sim.params() };
    let mut stepper = Rk4::new(model, 0.0, to_vector(&sim.state()), dt, dt);
    stepper.integrate().unwrap();
    assert_eq!(stepper.y_out().len(), 2);
    let next = to_state(stepper.y_out().last().unwrap());
    let snapshot = sim.commit(next)?;
    Ok(snapshot.map(|p| (f32::from_bits(p.x), f32::from_bits(p.y))))
}

fn reference_run(m: f32, epsilon: f32, dt: f32) -> Simulation {
    let params = SimulationParameters::new(
        1.0f32.to_bits(),
        m.to_bits(),
        m.to_bits(),
        m.to_bits(),
        epsilon.to_bits(),
    )
    .unwrap();
    let initial = [0.3f32, 0.5, 0.8, 0.3, 0.5, 0.7, 0.0, 0.0, 0.0, 0.0, 0.0, 0.0];
    let state = SimulationState { slots: initial.map(f32::to_bits) };
    Simulation::new(params, dt.to_bits(), state).unwrap()
}

fn values(sim: &Simulation) -> [f32; 12] {
    sim.state().slots.map(f32::from_bits)
}

#[test]
fn first_step_of_three_equal_masses() {
    let mut sim = reference_run(10.0, 0.001, 0.001);
    let before = values(&sim);
    let snapshot = advance_and_get_snapshot(&mut sim).unwrap();
    let after = values(&sim);
    assert_eq!(sim.ticks(), 1);
    for body in 0..3 {
        let (vx, vy) = (after[6 + body], after[9 + body]);
        assert!(vx != 0.0 || vy != 0.0, "body {body} did not start to move");
        assert!((after[body] - before[body]).abs() < 1.0e-3);
        assert!((after[3 + body] - before[3 + body]).abs() < 1.0e-3);
        assert_eq!(snapshot[body], (after[body], after[3 + body]));
    }
}

#[test]
fn first_step_pulls_the_outer_bodies_inwards() {
    let mut sim = reference_run(10.0, 0.001, 0.001);
    advance_and_get_snapshot(&mut sim).unwrap();
    let after = values(&sim);
    assert!(after[6] > 0.0 && after[9] > 0.0);
    assert!(after[8] < 0.0 && after[11] < 0.0);
}

#[test]
fn repeated_runs_agree_bit_for_bit() {
    let mut first = reference_run(10.0, 0.001, 0.001);
    let mut second = reference_run(10.0, 0.001, 0.001);
    for _ in 0..200 {
        let a = advance_and_get_snapshot(&mut first);
        let b = advance_and_get_snapshot(&mut second);
        assert_eq!(a.is_ok(), b.is_ok());
        assert_eq!(first.state().slots, second.state().slots);
        assert_eq!(first.ticks(), second.ticks());
    }
    assert_eq!(first.ticks(), 200);
}

#[test]
fn every_accepted_state_is_finite() {
    let mut sim = reference_run(10.0, 0.001, 0.001);
    for _ in 0..500 {
        if advance_and_get_snapshot(&mut sim).is_err() {
            break;
        }
        assert!(values(&sim).iter().all(|x| x.is_finite()));
    }
}

#[test]
fn huge_step_size_diverges_and_leaves_the_run_alone() {
    let mut sim = reference_run(10.0, 0.001, 1.0e30);
    let before = sim.state().slots;
    let r = advance_and_get_snapshot(&mut sim);
    assert_eq!(r.err(), Some(SimulationError::NumericDivergence));
    assert_eq!(sim.state().slots, before);
    assert_eq!(sim.ticks(), 0);
}

#[test]
fn infinite_step_size_diverges() {
    let mut sim = reference_run(10.0, 0.001, f32::INFINITY);
    let r = advance_and_get_snapshot(&mut sim);
    assert_eq!(r.err(), Some(SimulationError::NumericDivergence));
    assert_eq!(sim.ticks(), 0);
}

#[test]
fn coincident_bodies_stay_finite_under_softening() {
    let params = SimulationParameters::new(
        1.0f32.to_bits(),
        10.0f32.to_bits(),
        10.0f32.to_bits(),
        10.0f32.to_bits(),
        0.001f32.to_bits(),
    )
    .unwrap();
    let initial = [0.5f32, 0.5, 0.5, 0.5, 0.5, 0.5, 0.0, 0.0, 0.0, 0.0, 0.0, 0.0];
    let state = SimulationState { slots: initial.map(f32::to_bits) };
    let mut sim = Simulation::new(params, 0.001f32.to_bits(), state).unwrap();
    let snapshot = advance_and_get_snapshot(&mut sim).unwrap();
    assert_eq!(snapshot, [(0.5, 0.5); 3]);
    assert_eq!(values(&sim), initial);
}

#[test]
fn first_step_velocities_match_the_force_law() {
    let mut sim = reference_run(10.0, 0.001, 0.001);
    advance_and_get_snapshot(&mut sim).unwrap();
    let after = values(&sim);
    let expected = [
        (0.10746, 0.10365),
        (-0.02440, -0.04574),
        (-0.08305, -0.05791),
    ];
    for body in 0..3 {
        assert!((after[6 + body] - expected[body].0).abs() < 1.0e-4, "vx of body {body}");
        assert!((after[9 + body] - expected[body].1).abs() < 1.0e-4, "vy of body {body}");
    }
    let momentum_x: f32 = (0..3).map(|body| after[6 + body]).sum();
    let momentum_y: f32 = (0..3).map(|body| after[9 + body]).sum();
    assert!(momentum_x.abs() < 1.0e-5 && momentum_y.abs() < 1.0e-5);
}
