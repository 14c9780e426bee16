//! Data that the LED and pixel-matrix text shaders read: the character codes
//! of a display text, and the timing of a blinking LED.

pub mod blinking_led;
pub mod text;

pub use blinking_led::BlinkingLEDMaterial;
pub use text::TextData;
