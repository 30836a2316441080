//! Logic of the Raspberry Pi Sense HAT: the 8x8 RGB LED matrix (colour codec,
//! orientation mapping, raster buffer, gamma protocol), the framing of the
//! sensor registers, and the settings of the inertial sensor.
//!
//! The library computes; it never touches a device. Every operation that has
//! to reach the hardware hands back the bytes or the control request to send.

pub mod discovery;
pub mod display;
pub mod error;
pub mod gamma;
pub mod orientation;
pub mod pixel;
pub mod sensor;
pub mod settings;
pub mod wire;

pub use display::Display;
pub use error::{SenseHatError, SenseHatResult};
pub use gamma::{GammaPreset, GammaRequest};
pub use orientation::Orientation;
pub use pixel::{convert_from_pixel, convert_to_pixel, Pixel};
