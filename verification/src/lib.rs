//! Verified decision logic of a set of RP2040 lab programs: LED blinking,
//! PWM dimming, colour palettes, colours read back from an I2C EEPROM and a
//! button memory game. Hardware access lives outside this crate; the
//! functions here compute what the firmware drives and decides.

pub mod blink;
pub mod color;
pub mod dimmer;
pub mod eeprom;
pub mod memory_game;
pub mod palette;
pub mod pwm;
