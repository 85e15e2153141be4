//! The bring-up of one output pin in the order the silicon asks for: the pad
//! and I/O banks leave reset and report ready before any of their registers
//! is written.
use vstd::prelude::*;
use crate::error::PeriphError;
use crate::gpio::{after_clear, after_set, output_pad, pin_bit, GpioBank, NUM_PINS, FUNCSEL_SIO};
use crate::resets::{first_ready, wait_reset_done, domains_ready, RESET_IO_BANK0, RESET_PADS_BANK0};

verus! {

/// The reset domains that pin configuration needs: the pad bank and the I/O
/// bank.
pub open spec fn pin_domains() -> u32 {
    RESET_PADS_BANK0 | RESET_IO_BANK0
}

/// Waits, over the successive reset-done values `done_samples`, until the
/// pad and I/O banks are both ready, then configures `pin` as an output.
/// Returns the index of the read that showed them ready. Nothing in the bank
/// is written unless that read came within `budget`: on a timeout, as on a
/// pin outside the bank, the bank is left as it was.
pub fn bring_up_output_pin(bank: &mut GpioBank, done_samples: &Vec<u32>, budget: u32, pin: u32) -> (r:
    Result<usize, PeriphError>)
    requires
        old(bank).wf(),
    ensures
        final(bank).wf(),
        match r {
            Ok(i) => pin < NUM_PINS && first_ready(done_samples@, pin_domains(), budget, i as int)
                && final(bank).oe == after_set(after_clear(old(bank).oe, pin_bit(pin)), pin_bit(pin))
                && final(bank).out == after_clear(old(bank).out, pin_bit(pin))
                && final(bank).pads@ == old(bank).pads@.update(pin as int, output_pad())
                && final(bank).ctrl@ == old(bank).ctrl@.update(pin as int, FUNCSEL_SIO),
            Err(PeriphError::Timeout) => *final(bank) == *old(bank) && forall|j: int|
                0 <= j < done_samples@.len() && j < budget ==> !domains_ready(
                    #[trigger] done_samples@[j],
                    pin_domains(),
                ),
            Err(PeriphError::ConfigurationError) => *final(bank) == *old(bank) && pin >= NUM_PINS,
            Err(PeriphError::BusError) => false,
        },
{
    if pin >= NUM_PINS {
        return Err(PeriphError::ConfigurationError);
    }
    let mask: u32 = RESET_PADS_BANK0 | RESET_IO_BANK0;
    assert(0x100u32 | 0x20u32 == 0x120u32) by (bit_vector);
    assert(mask != 0 && mask & !0x01ff_ffffu32 == 0) by (bit_vector)
        requires
            mask == 0x120u32,
    ;
    let ready_at = match wait_reset_done(done_samples, mask, budget) {
        Ok(i) => i,
        Err(e) => return Err(e),
    };
    match bank.configure_output(pin) {
        Ok(()) => Ok(ready_at),
        Err(e) => Err(e),
    }
}

} // verus!
