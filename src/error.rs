use vstd::prelude::*;

verus! {

/// Why a run stopped before a rendering request was produced.
#[derive(Debug, Clone, PartialEq, Eq)]
pub enum RunError {
    /// The command line is malformed or names an unknown option.
    ArgumentParse(String),
    /// No input file was given.
    MissingInput,
    /// The input path is missing, a directory, or an empty file.
    File(FileProblem),
    /// No usable terminal size could be obtained.
    TerminalSize,
    /// A numeric option holds no positive integer that fits in 16 bits.
    InvalidNumericOption(NumericOption),
    /// The requested glyph is not exactly one user-perceived character.
    InvalidCharacter(String),
    /// The renderer reported a failure.
    Render(String),
}

/// The options that take a number.
#[derive(Debug, Clone, Copy, PartialEq, Eq)]
pub enum NumericOption {
    /// `-x`: output width in characters.
    Width,
    /// `-y`: output height in characters.
    Height,
    /// `--font-width`: font cell width in pixels.
    FontWidth,
    /// `--font-height`: font cell height in pixels.
    FontHeight,
}

/// What is wrong with the input file.
#[derive(Debug, Clone, Copy, PartialEq, Eq)]
pub enum FileProblem {
    /// Its metadata could not be read, most often because it does not exist.
    NotFound,
    IsDirectory,
    Empty,
}

} // verus!
