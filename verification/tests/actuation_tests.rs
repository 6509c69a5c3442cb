use rtc_blink::actuation::ToggleTask;
use rtc_blink::actuation::half_period_ticks;
use rtc_blink::actuation::service_cycle;
use rtc_blink::board::Board;
use rtc_blink::boot::BootError;
use rtc_blink::boot::boot;
use rtc_blink::clock::ClockConfig;
use rtc_blink::clock::ConfigError;
use rtc_blink::clock::OscillatorSource;

fn attainable_config() -> ClockConfig {
    ClockConfig {
        source: OscillatorSource::ExternalCrystal(8_000_000),
        sysclk_hz: 36_000_000,
        pclk_hz: 36_000_000,
    }
}

#[test]
fn boot_hands_out_everything() {
    let mut board = Board::new();
    let sys = boot(&mut board, &attainable_config()).unwrap();
    assert_eq!(sys.clocks.source_hz, 8_000_000);
    assert_eq!(sys.clocks.sysclk_hz, 36_000_000);
    assert_eq!(sys.clocks.pclk_hz, 36_000_000);
    assert!(sys.pin.is_set_high());
    assert!(sys.power.is_enabled());
    assert_eq!(sys.tick.rate_hz(), 36_000_000);
    assert_eq!(sys.rtc.sample().seconds_since_epoch, 0);
}

#[test]
fn boot_with_unattainable_clock_fails() {
    let mut board = Board::new();
    let cfg = ClockConfig {
        source: OscillatorSource::Internal,
        sysclk_hz: 7_000_000,
        pclk_hz: 7_000_000,
    };
    match boot(&mut board, &cfg) {
        Err(BootError::Config(e)) => assert_eq!(e, ConfigError::UnattainableSysclk),
        other => panic!("expected a clock configuration failure, got {:?}", other.is_ok()),
    }
}

#[test]
fn half_period_at_36_mhz_is_18_million_ticks() {
    let mut board = Board::new();
    let sys = boot(&mut board, &attainable_config()).unwrap();
    assert_eq!(half_period_ticks(&sys.tick), 18_000_000);
}

#[test]
fn wake_times_are_uniformly_spaced() {
    let mut board = Board::new();
    let mut sys = boot(&mut board, &attainable_config()).unwrap();
    let half = half_period_ticks(&sys.tick);
    let mut task = ToggleTask::new(&sys.tick, 1_000, true);
    let mut previous_wake = task.next_wake;
    assert_eq!(previous_wake, 1_000 + half);
    for n in 0..16 {
        task.on_wake(&mut sys.pin);
        assert_eq!(task.next_wake - previous_wake, half);
        previous_wake = task.next_wake;
        // The wave alternates: high on even wakes' start level, flipped each wake.
        assert_eq!(task.level, n % 2 == 1);
        assert_eq!(sys.pin.is_set_high(), task.level);
    }
}

#[test]
fn a_run_of_wakes_advances_one_half_period_each() {
    let mut board = Board::new();
    let mut sys = boot(&mut board, &attainable_config()).unwrap();
    let half = half_period_ticks(&sys.tick);
    let mut task = ToggleTask::new(&sys.tick, 0, true);
    rtc_blink::actuation::run_wakes(&mut task, &mut sys.pin, 7);
    assert_eq!(task.next_wake, half + 7 * half);
    // Seven half-cycles invert the starting level.
    assert!(!task.level);
    assert!(!sys.pin.is_set_high());
}

#[test]
fn service_cycle_reports_and_toggles() {
    let mut board = Board::new();
    let mut sys = boot(&mut board, &attainable_config()).unwrap();
    sys.rtc.latch(86_400, 250_000_000);
    assert!(sys.pin.is_set_high());
    let report = service_cycle(&mut sys.pin, &sys.rtc).unwrap();
    assert_eq!((report.year, report.month, report.day), (1970, 1, 2));
    assert_eq!(report.subsec_nanos, 250_000_000);
    assert!(!sys.pin.is_set_high());
}

#[test]
fn conversion_error_does_not_stop_the_toggle() {
    let mut board = Board::new();
    let mut sys = boot(&mut board, &attainable_config()).unwrap();
    sys.rtc.latch(u64::MAX, 0);
    assert!(sys.pin.is_set_high());
    let report = service_cycle(&mut sys.pin, &sys.rtc);
    assert!(report.is_err());
    assert!(!sys.pin.is_set_high());
    let report = service_cycle(&mut sys.pin, &sys.rtc);
    assert!(report.is_err());
    assert!(sys.pin.is_set_high());
}
