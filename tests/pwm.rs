use rp2040_bringup::claim::PeripheralClaim;
use rp2040_bringup::error::PeriphError;
use rp2040_bringup::pwm::PwmSlice;

#[test]
fn quarter_duty_cycle() {
    let s = PwmSlice::new(62500, 2, 15625).unwrap();
    assert!(s.duty_is(1, 4));
    assert!(s.duty_is(25, 100));
    assert!(!s.duty_is(1, 3));
    assert_eq!(s.duty_ppm(), 250_000);
}

#[test]
fn period_and_frequency() {
    let s = PwmSlice::new(62500, 2, 15625).unwrap();
    assert_eq!(s.cycles_per_period(), 125_002);
    assert_eq!(s.output_frequency_hz(125_000_000), 999);
    assert_eq!(s.output_frequency_hz(125_002_000), 1000);
}

#[test]
fn slice_for_a_frequency() {
    let s = PwmSlice::for_frequency(125_000_000, 1000, 2).unwrap();
    assert_eq!(s.top, 62499);
    assert_eq!(s.div_int, 2);
    assert_eq!(s.compare, 0);
    assert_eq!(s.cycles_per_period(), 125_000);
    assert_eq!(PwmSlice::for_frequency(125_000_000, 1000, 1).err(), Some(PeriphError::ConfigurationError));
    assert_eq!(PwmSlice::for_frequency(125_000_000, 0, 2).err(), Some(PeriphError::ConfigurationError));
    assert_eq!(PwmSlice::for_frequency(125_000_000, 1000, 0).err(), Some(PeriphError::ConfigurationError));
    assert_eq!(PwmSlice::for_frequency(100, 1000, 1).err(), Some(PeriphError::ConfigurationError));
    assert_eq!(PwmSlice::for_frequency(65536, 1, 1).unwrap().top, 65535);
}

#[test]
fn compare_above_top_is_refused() {
    assert_eq!(PwmSlice::new(100, 1, 101).err(), Some(PeriphError::ConfigurationError));
    assert_eq!(PwmSlice::new(100, 0, 50).err(), Some(PeriphError::ConfigurationError));
    let mut s = PwmSlice::new(100, 1, 50).unwrap();
    assert_eq!(s.set_duty(101), Err(PeriphError::ConfigurationError));
    assert_eq!(s.compare, 50);
    assert_eq!(s.set_duty(100), Ok(()));
    assert_eq!(s.duty_ppm(), 1_000_000);
}

#[test]
fn zero_top_has_zero_duty() {
    let s = PwmSlice::new(0, 1, 0).unwrap();
    assert_eq!(s.duty_ppm(), 0);
    assert_eq!(s.cycles_per_period(), 1);
}

#[test]
fn peripherals_are_claimed_once() {
    let mut claim = PeripheralClaim::new();
    assert_eq!(claim.take(), Ok(()));
    assert_eq!(claim.take(), Err(PeriphError::ConfigurationError));
    assert!(claim.taken);
}
