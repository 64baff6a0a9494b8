//! Horizontally scrolling ASCII text for a 5×5 LED matrix.
//!
//! A scroller holds a message and the progress of its animation. Each call of
//! `tick` moves the text one pixel column to the left; the display driver asks
//! for the brightness of each pixel through `tiny_led_matrix::Render`.
pub mod font;
pub mod image;
pub mod scrolling;
pub mod text;

pub use font::character;
pub use image::{BitImage, IMAGE_COLS, IMAGE_ROWS, MAX_BRIGHTNESS};
pub use scrolling::{ScrollingState, STEPS_PER_SYMBOL};
pub use text::{ScrollingBufferedText, ScrollingStaticText, BUFFER_CAPACITY};
