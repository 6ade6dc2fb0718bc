//! Infrared remote-control pipeline for a single-board computer: capture
//! decisions for incoming pulses, the AEHA pulse-timing codec, carrier
//! expansion for transmission, and an air-conditioner target whose commands
//! become protocol payloads; also the small decisions of the board's display,
//! LEDs and sensor registers.
pub mod types;
pub mod aeha;
pub mod capture;
pub mod transmit;
pub mod sanyo_types;
pub mod sanyo;
pub mod report;
pub mod text;
pub mod lcd;
pub mod peripherals;
pub mod calibration;
