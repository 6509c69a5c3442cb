use rtc_blink::clock::ClockConfig;
use rtc_blink::clock::Clocks;
use rtc_blink::clock::ConfigError;
use rtc_blink::clock::OscillatorSource;
use rtc_blink::clock::configure;

#[test]
fn crystal_8_to_36_is_exact() {
    // An 8 MHz crystal scaled by 9/2 runs the core and the peripheral bus
    // at 36 MHz.
    let cfg = ClockConfig {
        source: OscillatorSource::ExternalCrystal(8_000_000),
        sysclk_hz: 36_000_000,
        pclk_hz: 36_000_000,
    };
    assert_eq!(
        configure(&cfg),
        Ok(Clocks { source_hz: 8_000_000, sysclk_hz: 36_000_000, pclk_hz: 36_000_000 })
    );
}

#[test]
fn internal_oscillator_passthrough() {
    let cfg = ClockConfig {
        source: OscillatorSource::Internal,
        sysclk_hz: 16_000_000,
        pclk_hz: 16_000_000,
    };
    let clocks = configure(&cfg).unwrap();
    assert_eq!(clocks.source_hz, 16_000_000);
    assert_eq!(clocks.sysclk_hz, 16_000_000);
}

#[test]
fn internal_oscillator_halved() {
    let cfg = ClockConfig {
        source: OscillatorSource::Internal,
        sysclk_hz: 8_000_000,
        pclk_hz: 4_000_000,
    };
    let clocks = configure(&cfg).unwrap();
    assert_eq!(clocks.sysclk_hz, 8_000_000);
    assert_eq!(clocks.pclk_hz, 4_000_000);
}

#[test]
fn unattainable_sysclk_is_rejected() {
    // 7 MHz is not a multiple of 16 MHz under any supported divisor.
    let cfg = ClockConfig {
        source: OscillatorSource::Internal,
        sysclk_hz: 7_000_000,
        pclk_hz: 7_000_000,
    };
    assert_eq!(configure(&cfg), Err(ConfigError::UnattainableSysclk));
}

#[test]
fn sysclk_zero_is_rejected() {
    let cfg = ClockConfig { source: OscillatorSource::Internal, sysclk_hz: 0, pclk_hz: 1 };
    assert_eq!(configure(&cfg), Err(ConfigError::UnattainableSysclk));
}

#[test]
fn pclk_not_dividing_sysclk_is_rejected() {
    let cfg = ClockConfig {
        source: OscillatorSource::Internal,
        sysclk_hz: 16_000_000,
        pclk_hz: 7_000_000,
    };
    assert_eq!(configure(&cfg), Err(ConfigError::UnattainablePclk));
}

#[test]
fn pclk_zero_is_rejected() {
    let cfg = ClockConfig {
        source: OscillatorSource::Internal,
        sysclk_hz: 16_000_000,
        pclk_hz: 0,
    };
    assert_eq!(configure(&cfg), Err(ConfigError::UnattainablePclk));
}
