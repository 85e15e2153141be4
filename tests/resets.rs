use rp2040_bringup::error::PeriphError;
use rp2040_bringup::poll::PollOutcome;
use rp2040_bringup::resets::{
    deassert_value, reset_done, wait_reset_done, ResetWait, RESET_IO_BANK0, RESET_PADS_BANK0,
};

const BOTH: u32 = RESET_PADS_BANK0 | RESET_IO_BANK0;

#[test]
fn deassert_clears_only_the_requested_domains() {
    assert_eq!(deassert_value(0x01ff_ffff, BOTH), 0x01ff_fedf);
    assert_eq!(deassert_value(0, BOTH), 0);
}

#[test]
fn done_needs_every_requested_bit() {
    assert!(reset_done(BOTH, BOTH));
    assert!(reset_done(0xffff_ffff, BOTH));
    assert!(!reset_done(RESET_PADS_BANK0, BOTH));
    assert!(!reset_done(RESET_IO_BANK0, BOTH));
}

#[test]
fn wait_blocks_until_both_ready_bits_appear() {
    // One domain comes up first; the wait goes on until the second does.
    let samples = vec![0, RESET_IO_BANK0, RESET_IO_BANK0, BOTH | 1, BOTH];
    assert_eq!(wait_reset_done(&samples, BOTH, 100), Ok(3));
}

#[test]
fn wait_returns_at_once_when_ready() {
    assert_eq!(wait_reset_done(&vec![BOTH], BOTH, 1), Ok(0));
}

#[test]
fn wait_times_out_within_its_budget() {
    let samples = vec![0, RESET_PADS_BANK0, 0, BOTH];
    assert_eq!(wait_reset_done(&samples, BOTH, 3), Err(PeriphError::Timeout));
    assert_eq!(wait_reset_done(&samples, BOTH, 4), Ok(3));
    assert_eq!(wait_reset_done(&vec![], BOTH, 10), Err(PeriphError::Timeout));
    assert_eq!(wait_reset_done(&samples, BOTH, 0), Err(PeriphError::Timeout));
}

#[test]
fn wait_refuses_bad_masks() {
    assert_eq!(wait_reset_done(&vec![BOTH], 0, 5), Err(PeriphError::ConfigurationError));
    assert_eq!(wait_reset_done(&vec![BOTH], 0x0200_0000, 5), Err(PeriphError::ConfigurationError));
    assert!(ResetWait::new(0x8000_0000, 5).is_err());
}

#[test]
fn reset_wait_steps() {
    let mut w = ResetWait::new(BOTH, 2).unwrap();
    assert_eq!(w.observe(0), PollOutcome::Pending);
    assert_eq!(w.observe(RESET_PADS_BANK0), PollOutcome::TimedOut);
    let mut w = ResetWait::new(BOTH, 2).unwrap();
    assert_eq!(w.observe(BOTH), PollOutcome::Ready);
}
