use lockstep::clock::DeltaAccumulator;
use lockstep::context::simulation_frame;
use lockstep::context::Draw;
use lockstep::context::EmptyRoutine;
use lockstep::context::Setup;
use lockstep::context::StateHandle;
use lockstep::context::Update;
use lockstep::window::DisplayParameters;
use lockstep::window::DisplayWindowMode;
use lockstep::window::GlDisplayState;

struct Counter {
    ticks: u64,
    frames: u64,
    step_ns: u64,
}

impl Update for Counter {
    fn step_duration(&self) -> u64 {
        self.step_ns
    }

    fn set_step_duration(&mut self, step_ns: u64) {
        self.step_ns = step_ns;
    }

    fn update(&mut self, _delta_ns: u64) {
        self.ticks += 1;
    }

    fn new_frame(&mut self) {
        self.frames += 1;
    }
}

#[test]
fn state_handle_moves_one_way() {
    let mut handle: StateHandle<Counter> = StateHandle::Uninitialised(Counter {
        ticks: 0,
        frames: 0,
        step_ns: 16_000_000,
    });
    assert!(handle.is_uninitialised());
    let state = handle.begin_acquire();
    assert_eq!(state.step_ns, 16_000_000);
    assert!(handle.is_preparing());
    assert!(!handle.is_uninitialised());
    handle.finish_acquire();
    assert!(handle.is_acquired());
}

#[test]
fn the_empty_routine_does_nothing_and_succeeds() {
    let mut state = EmptyRoutine;
    let mut renderer = EmptyRoutine;
    assert!(EmptyRoutine.init(&mut state, &mut renderer).is_ok());
    assert_eq!(state.step_duration(), 0);
    state.set_step_duration(5);
    assert_eq!(state.step_duration(), 0);
    state.update(1);
    state.new_frame();
    renderer.draw(1);
}

#[test]
fn a_simulation_frame_drains_the_due_ticks() {
    // A long step keeps the wall clock's own contribution negligible.
    let step: u64 = 100_000_000_000;
    let mut state = Counter { ticks: 0, frames: 0, step_ns: step };
    let mut acc = DeltaAccumulator::new(step, std::time::Instant::now());
    acc.accum_elapsed(2 * step + step / 2);
    let preferred = state.step_duration();
    let ticks = simulation_frame(&mut state, &mut acc, preferred);
    assert_eq!(ticks, 2);
    assert_eq!(state.ticks, 2);
    assert_eq!(state.frames, 1);
    assert!(acc.accumulated() < acc.step());
}

#[test]
fn a_simulation_frame_applies_the_preferred_step_on_its_first_tick() {
    let step: u64 = 100_000_000_000;
    let mut state = Counter { ticks: 0, frames: 0, step_ns: step / 2 };
    let mut acc = DeltaAccumulator::new(step, std::time::Instant::now());
    acc.accum_elapsed(2 * step);
    // The first tick consumes the old step; the remainder drains at the
    // state's preferred rate.
    let preferred = state.step_duration();
    let ticks = simulation_frame(&mut state, &mut acc, preferred);
    assert_eq!(acc.step(), step / 2);
    assert_eq!(ticks, 3);
}

#[test]
fn an_idle_simulation_frame_still_runs_the_frame_hook() {
    let step: u64 = 100_000_000_000;
    let mut state = Counter { ticks: 0, frames: 0, step_ns: step };
    let mut acc = DeltaAccumulator::new(step, std::time::Instant::now());
    let ticks = simulation_frame(&mut state, &mut acc, step);
    assert_eq!(ticks, 0);
    assert_eq!(state.ticks, 0);
    assert_eq!(state.frames, 1);
}

#[test]
fn buffer_offsets_round_up_to_the_alignment() {
    assert_eq!(lockstep::align_to_gl_ssbo(0, 256), 0);
    assert_eq!(lockstep::align_to_gl_ssbo(1, 256), 256);
    assert_eq!(lockstep::align_to_gl_ssbo(5, 4), 8);
    assert_eq!(lockstep::align_to_gl_ssbo(8, 4), 8);
    assert_eq!(lockstep::align_to_gl_ssbo(13, 16), 16);
}

#[test]
fn windowed_display_parameters() {
    let params = DisplayParameters::windowed("demo", 800, 600);
    assert_eq!(params.title, "demo");
    assert_eq!(params.width, 800);
    assert_eq!(params.height, 600);
    assert_eq!(params.mode, DisplayWindowMode::Window);
}

#[test]
fn fullscreen_display_parameters() {
    let params = DisplayParameters::fullscreen("demo");
    assert_eq!(params.title, "demo");
    assert_eq!(params.mode, DisplayWindowMode::FullScreen);
}

#[test]
fn explicit_display_parameters() {
    let params = DisplayParameters::new("demo", 1, 2, DisplayWindowMode::FullScreen);
    assert_eq!((params.width, params.height), (1, 2));
    assert_eq!(params.mode, DisplayWindowMode::FullScreen);
    assert_ne!(GlDisplayState::Pending, GlDisplayState::Created);
}
