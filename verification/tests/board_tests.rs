use rtc_blink::board::AcquireError;
use rtc_blink::board::Board;
use rtc_blink::calendar::RawTimeSample;
use rtc_blink::clock::ClockConfig;
use rtc_blink::clock::OscillatorSource;

fn attainable_config() -> ClockConfig {
    ClockConfig {
        source: OscillatorSource::ExternalCrystal(8_000_000),
        sysclk_hz: 36_000_000,
        pclk_hz: 36_000_000,
    }
}

#[test]
fn second_take_of_pin_is_already_taken() {
    let mut board = Board::new();
    board.configure_clocks(&attainable_config()).unwrap();
    let pin = board.take_output_pin();
    assert!(pin.is_ok());
    let second = board.take_output_pin();
    assert_eq!(second.err(), Some(AcquireError::AlreadyTaken));
}

#[test]
fn second_take_of_rtc_is_already_taken() {
    let mut board = Board::new();
    board.configure_clocks(&attainable_config()).unwrap();
    assert!(board.take_rtc().is_ok());
    assert_eq!(board.take_rtc().err(), Some(AcquireError::AlreadyTaken));
}

#[test]
fn second_take_of_power_control_is_already_taken() {
    let mut board = Board::new();
    board.configure_clocks(&attainable_config()).unwrap();
    assert!(board.take_power_control().is_ok());
    assert_eq!(board.take_power_control().err(), Some(AcquireError::AlreadyTaken));
}

#[test]
fn second_tick_start_is_already_taken() {
    let mut board = Board::new();
    board.configure_clocks(&attainable_config()).unwrap();
    assert!(board.start_tick_source(36_000_000).is_ok());
    assert_eq!(board.start_tick_source(36_000_000).err(), Some(AcquireError::AlreadyTaken));
}

#[test]
fn acquired_pin_starts_high() {
    let mut board = Board::new();
    board.configure_clocks(&attainable_config()).unwrap();
    let pin = board.take_output_pin().unwrap();
    assert!(pin.is_set_high());
}

#[test]
fn take_before_clock_configuration_is_rejected() {
    let mut board = Board::new();
    assert_eq!(board.take_output_pin().err(), Some(AcquireError::ClockNotConfigured));
    assert_eq!(board.take_rtc().err(), Some(AcquireError::ClockNotConfigured));
    assert_eq!(board.take_power_control().err(), Some(AcquireError::ClockNotConfigured));
}

#[test]
fn tick_start_before_clock_configuration_is_rejected() {
    let mut board = Board::new();
    assert_eq!(board.start_tick_source(36_000_000).err(), Some(AcquireError::ClockNotConfigured));
}

#[test]
fn rtc_starts_at_power_on_epoch_and_latches_readings() {
    let mut board = Board::new();
    board.configure_clocks(&attainable_config()).unwrap();
    let mut rtc = board.take_rtc().unwrap();
    assert_eq!(
        rtc.sample(),
        RawTimeSample { seconds_since_epoch: 0, subsec_nanos: 0 }
    );
    rtc.latch(1_234, 567_000_000);
    assert_eq!(
        rtc.sample(),
        RawTimeSample { seconds_since_epoch: 1_234, subsec_nanos: 567_000_000 }
    );
}

#[test]
fn power_control_gates_clock_domain_open() {
    let mut board = Board::new();
    board.configure_clocks(&attainable_config()).unwrap();
    let power = board.take_power_control().unwrap();
    assert!(power.is_enabled());
}

#[test]
fn tick_source_reports_its_rate() {
    let mut board = Board::new();
    board.configure_clocks(&attainable_config()).unwrap();
    let tick = board.start_tick_source(36_000_000).unwrap();
    assert_eq!(tick.rate_hz(), 36_000_000);
}
