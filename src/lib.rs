//! Peripheral bring-up for a dual-core microcontroller: the reset-and-wait
//! sequencer, pin electrical and function configuration, write-one-to-act
//! output registers, bus transaction framing and PWM arithmetic, each over a
//! plain model of the registers it drives.
pub mod bmp280;
pub mod bringup;
pub mod claim;
pub mod error;
pub mod gpio;
pub mod i2c;
pub mod poll;
pub mod pwm;
pub mod resets;
pub mod spi;
