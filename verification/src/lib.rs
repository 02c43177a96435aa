//! Drivers for a small set of single-board-computer peripherals: an ADS7830
//! eight-channel analog-to-digital converter on a two-wire serial bus, a
//! two-pin H-bridge DC motor controller with PWM speed control, and a
//! four-phase unipolar stepper motor sequencer.
//!
//! The drivers are generic over the narrow hardware capabilities they need
//! (digital outputs, a PWM channel, a bus write-then-read transaction, a
//! blocking delay), declared in [`hal`]. In-memory implementations of those
//! capabilities live in [`sim`].

pub mod ads7830;
pub mod hal;
pub mod motor;
pub mod servo;
pub mod sim;
pub mod stepper_motor;
pub mod utils;
