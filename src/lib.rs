//! A three-phase traffic light controller, with the on/off signal mapping
//! that a hardware layer uses to drive the lamps.
pub mod config;
pub mod led;
pub mod traffic_light;
