//! Pins of the user bank: their pad and function-select registers, the
//! write-one-to-act output registers of the single-cycle I/O block, and a
//! model of the bank's register state that bring-up and toggling act on.
use vstd::prelude::*;
use crate::error::PeriphError;

verus! {

/// Number of pins in the user bank.
pub const NUM_PINS: u32 = 30;

/// Base address of the single-cycle I/O block.
pub const SIO_BASE: u32 = 0xd000_0000;

/// Output-set register: each 1 written drives its pin high.
pub const SIO_GPIO_OUT_SET_OFFSET: u32 = 0x14;

/// Output-clear register: each 1 written drives its pin low.
pub const SIO_GPIO_OUT_CLR_OFFSET: u32 = 0x18;

/// Output-enable-set register: each 1 written enables its pin's driver.
pub const SIO_GPIO_OE_SET_OFFSET: u32 = 0x24;

/// Output-enable-clear register: each 1 written disables its pin's driver.
pub const SIO_GPIO_OE_CLR_OFFSET: u32 = 0x28;

/// Base address of the pad control bank; pin n's register is at 4 + 4n.
pub const PADS_BANK0_BASE: u32 = 0x4001_c000;

/// Pad bit: pull-down enable.
pub const PAD_PDE: u32 = 0x04;

/// Pad bit: input buffer enable.
pub const PAD_IE: u32 = 0x40;

/// Pad bit: output disable.
pub const PAD_OD: u32 = 0x80;

/// A pad register's value after reset: input enabled, pull-down on, 4 mA
/// drive, Schmitt trigger on.
pub const PAD_RESET_VALUE: u32 = 0x56;

/// Base address of the I/O bank; pin n's control register is at 8n + 4.
pub const IO_BANK0_BASE: u32 = 0x4001_4000;

/// Offset of a pin's control register within its pair of registers.
pub const IO_BANK0_GPIO_CTRL_OFFSET: u32 = 0x04;

/// Function-select value that routes a pin nowhere (the reset value).
pub const FUNCSEL_NULL: u32 = 0x1f;

/// Function-select value of the single-cycle I/O block.
pub const FUNCSEL_SIO: u32 = 5;

/// The peripherals a pin can be routed to.
#[derive(Clone, Copy, Debug, PartialEq, Eq, Structural)]
pub enum Function {
    Xip,
    Spi,
    Uart,
    I2c,
    Pwm,
    Sio,
    Pio0,
    Pio1,
    Clock,
    Usb,
    Null,
}

/// The function-select field value of each function.
pub open spec fn funcsel_code(f: Function) -> u32 {
    match f {
        Function::Xip => 0,
        Function::Spi => 1,
        Function::Uart => 2,
        Function::I2c => 3,
        Function::Pwm => 4,
        Function::Sio => 5,
        Function::Pio0 => 6,
        Function::Pio1 => 7,
        Function::Clock => 8,
        Function::Usb => 9,
        Function::Null => 0x1f,
    }
}

/// The value written to a pin's control register to route it to `f`, all
/// overrides left at normal.
pub fn funcsel(f: Function) -> (r: u32)
    ensures
        r == funcsel_code(f),
{
    match f {
        Function::Xip => 0,
        Function::Spi => 1,
        Function::Uart => 2,
        Function::I2c => 3,
        Function::Pwm => 4,
        Function::Sio => FUNCSEL_SIO,
        Function::Pio0 => 6,
        Function::Pio1 => 7,
        Function::Clock => 8,
        Function::Usb => 9,
        Function::Null => FUNCSEL_NULL,
    }
}

/// The bit of pin `pin` in the output and output-enable registers.
pub open spec fn pin_bit(pin: u32) -> u32 {
    1u32 << pin
}

/// Whether bit `i` of `x` is set.
pub open spec fn bit_set(x: u32, i: u32) -> bool {
    (x >> i) & 1 == 1
}

/// A register after a write of `bits` to its set alias.
pub open spec fn after_set(reg: u32, bits: u32) -> u32 {
    reg | bits
}

/// A register after a write of `bits` to its clear alias.
pub open spec fn after_clear(reg: u32, bits: u32) -> u32 {
    reg & !bits
}

/// The pad value for a driven output: pull-down off, input buffer off,
/// output not disabled, every other field at its reset value.
pub open spec fn output_pad() -> u32 {
    PAD_RESET_VALUE & !(PAD_PDE | PAD_IE | PAD_OD)
}

/// The bit of a pin in the output registers. A pin outside the bank is a
/// configuration error.
pub fn pin_mask(pin: u32) -> (r: Result<u32, PeriphError>)
    ensures
        match r {
            Ok(m) => pin < NUM_PINS && m == pin_bit(pin),
            Err(e) => pin >= NUM_PINS && e == PeriphError::ConfigurationError,
        },
{
    if pin >= NUM_PINS {
        Err(PeriphError::ConfigurationError)
    } else {
        Ok(1u32 << pin)
    }
}

/// Address of a pin's pad control register.
pub fn pad_address(pin: u32) -> (r: Result<u32, PeriphError>)
    ensures
        match r {
            Ok(a) => pin < NUM_PINS && a == PADS_BANK0_BASE + 4 + 4 * pin,
            Err(e) => pin >= NUM_PINS && e == PeriphError::ConfigurationError,
        },
{
    if pin >= NUM_PINS {
        Err(PeriphError::ConfigurationError)
    } else {
        Ok(PADS_BANK0_BASE + 4 + 4 * pin)
    }
}

/// Address of a pin's control register in the I/O bank.
pub fn ctrl_address(pin: u32) -> (r: Result<u32, PeriphError>)
    ensures
        match r {
            Ok(a) => pin < NUM_PINS && a == IO_BANK0_BASE + 8 * pin + IO_BANK0_GPIO_CTRL_OFFSET,
            Err(e) => pin >= NUM_PINS && e == PeriphError::ConfigurationError,
        },
{
    if pin >= NUM_PINS {
        Err(PeriphError::ConfigurationError)
    } else {
        Ok(IO_BANK0_BASE + 8 * pin + IO_BANK0_GPIO_CTRL_OFFSET)
    }
}

/// The pad value for a pin driven as an output.
pub fn output_pad_value() -> (r: u32)
    ensures
        r == output_pad(),
{
    PAD_RESET_VALUE & !(PAD_PDE | PAD_IE | PAD_OD)
}

/// Setting a pin's bit through the set alias and then clearing it through
/// the clear alias changes that bit to 1 and then to 0, and leaves every
/// other bit of the register as it was after both writes.
pub proof fn lemma_set_clear_only_touch_pin(reg: u32, pin: u32)
    requires
        pin < NUM_PINS,
    ensures
        bit_set(after_set(reg, pin_bit(pin)), pin),
        !bit_set(after_clear(after_set(reg, pin_bit(pin)), pin_bit(pin)), pin),
        forall|i: u32|
            i < 32 && i != pin ==> (bit_set(#[trigger] after_set(reg, pin_bit(pin)), i) == bit_set(reg, i)
                && bit_set(after_clear(after_set(reg, pin_bit(pin)), pin_bit(pin)), i) == bit_set(reg, i)),
{
    assert(((reg | (1u32 << pin)) >> pin) & 1 == 1) by (bit_vector)
        requires
            pin < 30,
    ;
    assert((((reg | (1u32 << pin)) & !(1u32 << pin)) >> pin) & 1 != 1) by (bit_vector)
        requires
            pin < 30,
    ;
    assert forall|i: u32| i < 32 && i != pin implies (bit_set(#[trigger] after_set(reg, pin_bit(pin)), i)
        == bit_set(reg, i) && bit_set(after_clear(after_set(reg, pin_bit(pin)), pin_bit(pin)), i)
        == bit_set(reg, i)) by {
        assert((((reg | (1u32 << pin)) >> i) & 1 == 1) == (((reg >> i) & 1) == 1)
            && (((((reg | (1u32 << pin)) & !(1u32 << pin)) >> i) & 1 == 1) == (((reg >> i) & 1) == 1)))
            by (bit_vector)
            requires
                pin < 30,
                i < 32,
                i != pin,
        ;
    }
}

/// The register state of the user bank that bring-up and toggling change:
/// the output and output-enable registers of the single-cycle I/O block,
/// and each pin's pad and control register.
pub struct GpioBank {
    pub out: u32,
    pub oe: u32,
    pub pads: Vec<u32>,
    pub ctrl: Vec<u32>,
}

impl GpioBank {
    pub open spec fn wf(&self) -> bool {
        self.pads@.len() == NUM_PINS && self.ctrl@.len() == NUM_PINS
    }

    /// The bank as it comes out of reset: every output low and disabled,
    /// every pad at its reset value, every pin routed nowhere.
    pub fn new() -> (r: GpioBank)
        ensures
            r.wf(),
            r.out == 0,
            r.oe == 0,
            forall|i: int| 0 <= i < NUM_PINS ==> #[trigger] r.pads@[i] == PAD_RESET_VALUE,
            forall|i: int| 0 <= i < NUM_PINS ==> #[trigger] r.ctrl@[i] == FUNCSEL_NULL,
    {
        let mut pads: Vec<u32> = Vec::new();
        let mut ctrl: Vec<u32> = Vec::new();
        let mut n: u32 = 0;
        while n < NUM_PINS
            invariant
                n <= NUM_PINS,
                pads@.len() == n,
                ctrl@.len() == n,
                forall|i: int| 0 <= i < n ==> #[trigger] pads@[i] == PAD_RESET_VALUE,
                forall|i: int| 0 <= i < n ==> #[trigger] ctrl@[i] == FUNCSEL_NULL,
            decreases NUM_PINS - n,
        {
            pads.push(PAD_RESET_VALUE);
            ctrl.push(FUNCSEL_NULL);
            n = n + 1;
        }
        GpioBank { out: 0, oe: 0, pads, ctrl }
    }

    /// A write of `bits` to the output-set register.
    pub fn write_out_set(&mut self, bits: u32)
        ensures
            final(self).out == after_set(old(self).out, bits),
            final(self).oe == old(self).oe,
            final(self).pads == old(self).pads,
            final(self).ctrl == old(self).ctrl,
    {
        self.out = self.out | bits;
    }

    /// A write of `bits` to the output-clear register.
    pub fn write_out_clr(&mut self, bits: u32)
        ensures
            final(self).out == after_clear(old(self).out, bits),
            final(self).oe == old(self).oe,
            final(self).pads == old(self).pads,
            final(self).ctrl == old(self).ctrl,
    {
        self.out = self.out & !bits;
    }

    /// A write of `bits` to the output-enable-set register.
    pub fn write_oe_set(&mut self, bits: u32)
        ensures
            final(self).oe == after_set(old(self).oe, bits),
            final(self).out == old(self).out,
            final(self).pads == old(self).pads,
            final(self).ctrl == old(self).ctrl,
    {
        self.oe = self.oe | bits;
    }

    /// A write of `bits` to the output-enable-clear register.
    pub fn write_oe_clr(&mut self, bits: u32)
        ensures
            final(self).oe == after_clear(old(self).oe, bits),
            final(self).out == old(self).out,
            final(self).pads == old(self).pads,
            final(self).ctrl == old(self).ctrl,
    {
        self.oe = self.oe & !bits;
    }

    /// Routes pin `pin` to function `f`; no other pin changes.
    pub fn select_function(&mut self, pin: u32, f: Function) -> (r: Result<(), PeriphError>)
        requires
            old(self).wf(),
        ensures
            final(self).wf(),
            final(self).out == old(self).out,
            final(self).oe == old(self).oe,
            final(self).pads == old(self).pads,
            match r {
                Ok(()) => pin < NUM_PINS && final(self).ctrl@ == old(self).ctrl@.update(
                    pin as int,
                    funcsel_code(f),
                ),
                Err(e) => pin >= NUM_PINS && e == PeriphError::ConfigurationError
                    && final(self).ctrl == old(self).ctrl,
            },
    {
        if pin >= NUM_PINS {
            return Err(PeriphError::ConfigurationError);
        }
        self.ctrl.set(pin as usize, funcsel(f));
        Ok(())
    }

    /// Brings pin `pin` up as a driven output, in the order the hardware
    /// asks for: output disabled and low first, then the pad (pull-down off,
    /// input off, output not disabled), then the routing to the single-cycle
    /// I/O block, and output enabled last. No other pin changes. A pin
    /// outside the bank is refused and nothing is written.
    pub fn configure_output(&mut self, pin: u32) -> (r: Result<(), PeriphError>)
        requires
            old(self).wf(),
        ensures
            final(self).wf(),
            match r {
                Ok(()) => pin < NUM_PINS
                    && final(self).oe == after_set(after_clear(old(self).oe, pin_bit(pin)), pin_bit(pin))
                    && final(self).out == after_clear(old(self).out, pin_bit(pin))
                    && final(self).pads@ == old(self).pads@.update(pin as int, output_pad())
                    && final(self).ctrl@ == old(self).ctrl@.update(pin as int, FUNCSEL_SIO),
                Err(e) => pin >= NUM_PINS && e == PeriphError::ConfigurationError
                    && *final(self) == *old(self),
            },
    {
        let mask = match pin_mask(pin) {
            Ok(m) => m,
            Err(e) => return Err(e),
        };
        self.write_oe_clr(mask);
        self.write_out_clr(mask);
        self.pads.set(pin as usize, output_pad_value());
        self.ctrl.set(pin as usize, FUNCSEL_SIO);
        self.write_oe_set(mask);
        Ok(())
    }

    /// Drives pin `pin` high through the output-set register.
    pub fn set_high(&mut self, pin: u32) -> (r: Result<(), PeriphError>)
        ensures
            final(self).oe == old(self).oe,
            final(self).pads == old(self).pads,
            final(self).ctrl == old(self).ctrl,
            match r {
                Ok(()) => pin < NUM_PINS && final(self).out == after_set(old(self).out, pin_bit(pin)),
                Err(e) => pin >= NUM_PINS && e == PeriphError::ConfigurationError
                    && final(self).out == old(self).out,
            },
    {
        let mask = match pin_mask(pin) {
            Ok(m) => m,
            Err(e) => return Err(e),
        };
        self.write_out_set(mask);
        Ok(())
    }

    /// Drives pin `pin` low through the output-clear register.
    pub fn set_low(&mut self, pin: u32) -> (r: Result<(), PeriphError>)
        ensures
            final(self).oe == old(self).oe,
            final(self).pads == old(self).pads,
            final(self).ctrl == old(self).ctrl,
            match r {
                Ok(()) => pin < NUM_PINS && final(self).out == after_clear(old(self).out, pin_bit(pin)),
                Err(e) => pin >= NUM_PINS && e == PeriphError::ConfigurationError
                    && final(self).out == old(self).out,
            },
    {
        let mask = match pin_mask(pin) {
            Ok(m) => m,
            Err(e) => return Err(e),
        };
        self.write_out_clr(mask);
        Ok(())
    }
}

} // verus!
