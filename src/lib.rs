//! Parameter resolution and validation for rendering an image as colored
//! terminal glyphs: command-line options, input checks, and the fully
//! resolved rendering request handed to the renderer.

pub mod error;
pub mod glyph;
pub mod mode;
pub mod numbers;
pub mod options;
pub mod request;
pub mod run;
