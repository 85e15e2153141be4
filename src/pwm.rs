//! One PWM slice: a counter that runs from 0 to `top` on a clock divided by
//! an integer divisor, and a compare value that sets the duty cycle.
use vstd::prelude::*;
use crate::error::PeriphError;

verus! {

/// A PWM slice's settings. The compare value never exceeds the top value:
/// a duty cycle above it is refused, not clamped.
pub struct PwmSlice {
    pub top: u16,
    pub div_int: u8,
    pub compare: u16,
}

/// Whether a slice's settings are ones the hardware can hold.
pub open spec fn valid_pwm(top: u16, div_int: u8, compare: u16) -> bool {
    div_int >= 1 && compare <= top
}

impl PwmSlice {
    pub open spec fn wf(&self) -> bool {
        valid_pwm(self.top, self.div_int, self.compare)
    }

    /// Number of system clock cycles in one period.
    pub open spec fn period_cycles(&self) -> int {
        self.div_int * (self.top + 1)
    }

    /// A slice with the given top value, integer divisor and compare value.
    /// A divisor of zero or a compare value above the top is refused.
    pub fn new(top: u16, div_int: u8, compare: u16) -> (r: Result<PwmSlice, PeriphError>)
        ensures
            match r {
                Ok(s) => valid_pwm(top, div_int, compare) && s.top == top && s.div_int == div_int
                    && s.compare == compare,
                Err(e) => !valid_pwm(top, div_int, compare) && e == PeriphError::ConfigurationError,
            },
    {
        if div_int == 0 || compare > top {
            Err(PeriphError::ConfigurationError)
        } else {
            Ok(PwmSlice { top, div_int, compare })
        }
    }

    /// A slice whose period comes as close from below as the divisor allows
    /// to `sys_clk_hz / freq_hz` cycles: `top + 1` is the whole number of
    /// divided clock cycles in one period of the target frequency. The duty
    /// cycle starts at zero. Refused when the frequency or the divisor is
    /// zero, or when the period does not fit the 16-bit counter.
    pub fn for_frequency(sys_clk_hz: u32, freq_hz: u32, div_int: u8) -> (r: Result<
        PwmSlice,
        PeriphError,
    >)
        ensures
            match r {
                Ok(s) => freq_hz > 0 && div_int > 0 && s.wf() && s.div_int == div_int && s.compare == 0
                    && s.top + 1 == sys_clk_hz as int / (freq_hz as int * div_int as int),
                Err(e) => e == PeriphError::ConfigurationError && (freq_hz == 0 || div_int == 0
                    || sys_clk_hz as int / (freq_hz as int * div_int as int) == 0
                    || sys_clk_hz as int / (freq_hz as int * div_int as int) > 0x1_0000),
            },
    {
        if freq_hz == 0 || div_int == 0 {
            return Err(PeriphError::ConfigurationError);
        }
        assert(0 < freq_hz as int * div_int as int <= 0xffff_ffff * 255) by (nonlinear_arith)
            requires
                0 < freq_hz,
                0 < div_int <= 255,
        ;
        let step: u64 = freq_hz as u64 * div_int as u64;
        let counts: u64 = sys_clk_hz as u64 / step;
        if counts == 0 || counts > 0x1_0000 {
            return Err(PeriphError::ConfigurationError);
        }
        Ok(PwmSlice { top: (counts - 1) as u16, div_int, compare: 0 })
    }

    /// Sets the compare value; one above the top value is refused and the
    /// slice is left as it was.
    pub fn set_duty(&mut self, compare: u16) -> (r: Result<(), PeriphError>)
        requires
            old(self).wf(),
        ensures
            final(self).wf(),
            final(self).top == old(self).top,
            final(self).div_int == old(self).div_int,
            match r {
                Ok(()) => compare <= old(self).top && final(self).compare == compare,
                Err(e) => compare > old(self).top && e == PeriphError::ConfigurationError
                    && final(self).compare == old(self).compare,
            },
    {
        if compare > self.top {
            return Err(PeriphError::ConfigurationError);
        }
        self.compare = compare;
        Ok(())
    }

    /// System clock cycles in one period: divisor times `top + 1`.
    pub fn cycles_per_period(&self) -> (r: u32)
        ensures
            r as int == self.period_cycles(),
    {
        assert(self.div_int as int * (self.top as int + 1) <= 255 * 0x1_0000) by (nonlinear_arith)
            requires
                self.div_int <= 255,
                self.top <= 0xffff,
        ;
        self.div_int as u32 * (self.top as u32 + 1)
    }

    /// Output frequency in whole hertz for a system clock of `sys_clk_hz`.
    pub fn output_frequency_hz(&self, sys_clk_hz: u32) -> (r: u32)
        requires
            self.wf(),
        ensures
            r as int == sys_clk_hz as int / self.period_cycles(),
    {
        let cycles = self.cycles_per_period();
        assert(self.period_cycles() > 0) by (nonlinear_arith)
            requires
                self.div_int >= 1,
                self.top >= 0,
        ;
        sys_clk_hz / cycles
    }

    /// Whether the duty cycle, compare over top, equals `num / den` exactly.
    pub fn duty_is(&self, num: u32, den: u32) -> (r: bool)
        ensures
            r == (self.compare as int * den as int == self.top as int * num as int),
    {
        assert(self.compare as int * den as int <= 0xffff * 0xffff_ffff) by (nonlinear_arith)
            requires
                self.compare <= 0xffff,
                den <= 0xffff_ffff,
        ;
        assert(self.top as int * num as int <= 0xffff * 0xffff_ffff) by (nonlinear_arith)
            requires
                self.top <= 0xffff,
                num <= 0xffff_ffff,
        ;
        self.compare as u64 * den as u64 == self.top as u64 * num as u64
    }

    /// The duty cycle, compare over top, in millionths, rounded down; zero
    /// when the top value is zero.
    pub fn duty_ppm(&self) -> (r: u32)
        requires
            self.wf(),
        ensures
            self.top == 0 ==> r == 0,
            self.top > 0 ==> r as int == (self.compare as int * 1_000_000) / self.top as int,
    {
        if self.top == 0 {
            return 0;
        }
        let scaled: u64 = self.compare as u64 * 1_000_000;
        let r: u64 = scaled / self.top as u64;
        proof {
            assert(self.compare as int * 1_000_000 <= self.top as int * 1_000_000) by (nonlinear_arith)
                requires
                    self.compare <= self.top,
            ;
            assert((self.compare as int * 1_000_000) / self.top as int <= 1_000_000) by (nonlinear_arith)
                requires
                    self.compare <= self.top,
                    self.top > 0,
            ;
        }
        r as u32
    }
}

} // verus!
