use stripe_bench::driver::{Action, Driver, Event, Phase, RunError};
use stripe_bench::pixel::Rgba;
use stripe_bench::raster::Image;
use stripe_bench::sampling::{Expectations, Expected, Mismatch, SamplePoint};
use stripe_bench::stats::Ratio;
use stripe_bench::stripe::generate_image;

fn ramp(size_power: u32) -> Image {
    let side = 1u32 << size_power;
    let mut data = Vec::new();
    for y in 0..side {
        for x in 0..side {
            data.push(x as u8);
            data.push(y as u8);
            data.push(0);
            data.push(255);
        }
    }
    Image::from_raw(size_power, data).unwrap()
}

fn spoiled(size_power: u32, x: u32, y: u32, red: u8) -> Image {
    let side = 1usize << size_power;
    let mut data = ramp(size_power).into_raw();
    data[4 * (y as usize * side + x as usize)] = red;
    Image::from_raw(size_power, data).unwrap()
}

fn expectations() -> Expectations {
    Expectations {
        quarter: Expected { red: 64, green: 64 },
        half: Expected { red: 128, green: 128 },
        three_quarter: Expected { red: 192, green: 192 },
    }
}

/// Plays the backend: answers every action until the run ends, handing out
/// a bad frame at the pass `bad_at`, and counts the dispatches.
fn play(iterations: u32, bad_at: Option<u32>) -> (Driver, Action, u32) {
    let image = generate_image(8);
    let good = ramp(8);
    let bad = spoiled(8, 128, 128, 0);
    let mut driver = Driver::new(&image, iterations, expectations()).unwrap();
    let mut action = driver.action();
    let mut dispatched = 0;
    loop {
        action = match action {
            Action::Prepare => driver.step(Event::Prepared),
            Action::Dispatch { iteration_index, total_iterations } => {
                assert_eq!(iteration_index, dispatched);
                assert_eq!(total_iterations, iterations);
                dispatched += 1;
                let frame = if bad_at == Some(iteration_index) { &bad } else { &good };
                driver.step(Event::Frame { image: frame, elapsed_ms: 10 + iteration_index as u64 })
            }
            Action::Report | Action::Abort(_) => return (driver, action, dispatched),
        };
    }
}

#[test]
fn zero_iterations_are_refused() {
    let image = generate_image(4);
    let result = Driver::new(&image, 0, expectations());
    assert!(matches!(result, Err(RunError::Config)));
}

#[test]
fn new_run_asks_for_preparation() {
    let image = generate_image(4);
    let driver = Driver::new(&image, 3, expectations()).unwrap();
    assert_eq!(driver.action(), Action::Prepare);
    assert_eq!(driver.phase(), Phase::Init);
    assert_eq!(driver.iterations(), 3);
    assert!(driver.durations().is_empty());
    assert!(driver.statistics().is_none());
}

#[test]
fn successful_run_records_one_duration_per_pass() {
    for k in [1u32, 2, 3, 10, 100] {
        let (driver, action, dispatched) = play(k, None);
        assert_eq!(action, Action::Report);
        assert_eq!(dispatched, k);
        assert_eq!(driver.phase(), Phase::Finished);
        assert_eq!(driver.durations().len(), k as usize);
        let expected: Vec<u64> = (0..k as u64).map(|i| 10 + i).collect();
        assert_eq!(driver.durations(), &expected);
    }
}

#[test]
fn finished_run_has_statistics() {
    let (driver, _, _) = play(4, None);
    let s = driver.statistics().unwrap();
    assert_eq!(s.iterations(), 4);
    assert_eq!(s.total_ms(), 10 + 11 + 12 + 13);
    assert_eq!(s.bytes_per_iteration(), 256 * 256 * 4);
    assert_eq!(s.mean_ms(), Ratio { numerator: 46, denominator: 4 });
    assert_eq!(s.iterations_per_second(), Ratio { numerator: 4000, denominator: 46 });
    assert_eq!(
        s.gib_per_second(),
        Ratio { numerator: 4000 * 262144, denominator: 46 * 1073741824 }
    );
}

#[test]
fn statistics_follow_the_floating_point_formulas() {
    let (driver, _, _) = play(7, None);
    let s = driver.statistics().unwrap();
    let summed: u64 = driver.durations().iter().sum();
    let avg = (summed as f64) / 7.0;
    let bytes = 256u32 * 256 * 4;
    let mean = s.mean_ms();
    let throughput = s.iterations_per_second();
    let bandwidth = s.gib_per_second();
    let as_float = |r: Ratio| r.numerator as f64 / r.denominator as f64;
    assert!((as_float(mean) - avg).abs() < 1e-9);
    assert!((as_float(throughput) - 1000.0 / avg).abs() < 1e-9);
    let reference = (1000.0 / avg * (bytes as f64)) / 1024_f64.powi(3);
    assert!((as_float(bandwidth) - reference).abs() < 1e-9);
}

#[test]
fn mismatch_aborts_at_its_iteration() {
    for (k, i) in [(5u32, 0u32), (5, 2), (5, 4), (1, 0)] {
        let (driver, action, dispatched) = play(k, Some(i));
        let error = RunError::Validation {
            iteration: i,
            mismatch: Mismatch {
                point: SamplePoint { x: 128, y: 128 },
                expected: Expected { red: 128, green: 128 },
                actual: Rgba { red: 0, green: 128, blue: 0, alpha: 255 },
            },
        };
        assert_eq!(action, Action::Abort(error));
        assert_eq!(driver.phase(), Phase::Aborted(error));
        assert_eq!(dispatched, i + 1);
        assert_eq!(driver.durations().len(), i as usize + 1);
        assert!(driver.statistics().is_none());
    }
}

#[test]
fn nothing_is_recorded_after_an_abort() {
    let (mut driver, action, _) = play(5, Some(2));
    let before = driver.durations().clone();
    let good = ramp(8);
    assert_eq!(driver.step(Event::Frame { image: &good, elapsed_ms: 1 }), action);
    assert_eq!(driver.step(Event::Prepared), action);
    assert_eq!(driver.step(Event::DispatchFailed), action);
    assert_eq!(driver.step(Event::ReadbackFailed), action);
    assert_eq!(driver.step(Event::PrepareFailed), action);
    assert_eq!(driver.durations(), &before);
    assert_eq!(driver.action(), action);
    assert!(driver.statistics().is_none());
}

#[test]
fn nothing_is_recorded_after_the_last_pass() {
    let (mut driver, _, _) = play(3, None);
    let good = ramp(8);
    let bad = spoiled(8, 64, 64, 0);
    assert_eq!(driver.step(Event::Frame { image: &good, elapsed_ms: 1 }), Action::Report);
    assert_eq!(driver.step(Event::Frame { image: &bad, elapsed_ms: 1 }), Action::Report);
    assert_eq!(driver.step(Event::DispatchFailed), Action::Report);
    assert_eq!(driver.durations(), &vec![10, 11, 12]);
    assert_eq!(driver.statistics().unwrap().total_ms(), 33);
}

#[test]
fn failed_preparation_aborts_the_run() {
    let image = generate_image(4);
    let mut driver = Driver::new(&image, 3, expectations()).unwrap();
    let action = driver.step(Event::PrepareFailed);
    assert_eq!(action, Action::Abort(RunError::BackendInit));
    assert_eq!(driver.phase(), Phase::Aborted(RunError::BackendInit));
    assert!(driver.durations().is_empty());
}

#[test]
fn failed_dispatch_aborts_with_its_iteration() {
    let image = generate_image(8);
    let good = ramp(8);
    let mut driver = Driver::new(&image, 3, expectations()).unwrap();
    driver.step(Event::Prepared);
    driver.step(Event::Frame { image: &good, elapsed_ms: 4 });
    let action = driver.step(Event::DispatchFailed);
    assert_eq!(action, Action::Abort(RunError::Dispatch { iteration: 1 }));
    assert_eq!(driver.durations(), &vec![4]);
}

#[test]
fn failed_readback_aborts_with_its_iteration() {
    let image = generate_image(8);
    let good = ramp(8);
    let mut driver = Driver::new(&image, 3, expectations()).unwrap();
    driver.step(Event::Prepared);
    driver.step(Event::Frame { image: &good, elapsed_ms: 4 });
    driver.step(Event::Frame { image: &good, elapsed_ms: 5 });
    let action = driver.step(Event::ReadbackFailed);
    assert_eq!(action, Action::Abort(RunError::Readback { iteration: 2 }));
    assert_eq!(driver.durations(), &vec![4, 5]);
}

#[test]
fn events_out_of_turn_change_nothing() {
    let image = generate_image(8);
    let good = ramp(8);
    let mut driver = Driver::new(&image, 2, expectations()).unwrap();
    assert_eq!(driver.step(Event::Frame { image: &good, elapsed_ms: 1 }), Action::Prepare);
    assert_eq!(driver.step(Event::DispatchFailed), Action::Prepare);
    assert_eq!(driver.step(Event::ReadbackFailed), Action::Prepare);
    assert!(driver.durations().is_empty());
    let first = Action::Dispatch { iteration_index: 0, total_iterations: 2 };
    assert_eq!(driver.step(Event::Prepared), first);
    assert_eq!(driver.step(Event::Prepared), first);
    assert_eq!(driver.step(Event::PrepareFailed), first);
    assert_eq!(driver.phase(), Phase::Running);
}

#[test]
fn duration_of_a_bad_frame_is_recorded_before_the_check() {
    let image = generate_image(8);
    let bad = spoiled(8, 192, 192, 191);
    let mut driver = Driver::new(&image, 2, expectations()).unwrap();
    driver.step(Event::Prepared);
    let action = driver.step(Event::Frame { image: &bad, elapsed_ms: 77 });
    assert!(matches!(action, Action::Abort(RunError::Validation { iteration: 0, .. })));
    assert_eq!(driver.durations(), &vec![77]);
}

#[test]
fn bytes_per_pass_come_from_the_configured_image() {
    let image = generate_image(5);
    let e = Expected { red: 0, green: 0 };
    let all = Expectations { quarter: e, half: e, three_quarter: e };
    let frame = Image::from_raw(0, vec![0, 0, 0, 0]).unwrap();
    let mut driver = Driver::new(&image, 1, all).unwrap();
    driver.step(Event::Prepared);
    assert_eq!(driver.step(Event::Frame { image: &frame, elapsed_ms: 3 }), Action::Report);
    assert_eq!(driver.statistics().unwrap().bytes_per_iteration(), 32 * 32 * 4);
}
