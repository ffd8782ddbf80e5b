use vstd::prelude::*;
use crate::error::{FileProblem, NumericOption, RunError};
use crate::mode::{get_display_mode, mode_mask};
use crate::numbers::{get_int_arg, numeric_ok, numeric_or};
use crate::options::OptionSet;

verus! {

/// Font cell width, in pixels, when `--font-width` is absent.
pub const DEFAULT_FONT_WIDTH: u16 = 8;

/// Font cell height, in pixels, when `--font-height` is absent.
pub const DEFAULT_FONT_HEIGHT: u16 = 16;

/// What the file system reports about the input path.
#[derive(Debug, Clone, Copy, PartialEq, Eq)]
pub struct FileFacts {
    pub is_dir: bool,
    pub len: u64,
}

/// The fully resolved request handed to the renderer.
#[derive(Debug, Clone, PartialEq, Eq)]
pub struct RenderRequest {
    pub filename: String,
    pub output_width: u16,
    pub output_height: u16,
    pub font_width: u16,
    pub font_height: u16,
    pub glyph: String,
    pub mode: u8,
}

impl RenderRequest {
    /// All sizes are positive.
    pub open spec fn wf(&self) -> bool {
        &&& self.output_width > 0
        &&& self.output_height > 0
        &&& self.font_width > 0
        &&& self.font_height > 0
    }
}

/// The outcome of a file check on what the file system reported (`None`:
/// nothing could be read): the length of a non-empty regular file.
pub open spec fn file_check(facts: Option<FileFacts>) -> Result<u64, RunError> {
    match facts {
        None => Err(RunError::File(FileProblem::NotFound)),
        Some(f) => if f.is_dir {
            Err(RunError::File(FileProblem::IsDirectory))
        } else if f.len == 0 {
            Err(RunError::File(FileProblem::Empty))
        } else {
            Ok(f.len)
        },
    }
}

/// Accepts an input file that exists, is no directory, and is not empty;
/// returns its length.
pub fn check_file(facts: Option<FileFacts>) -> (r: Result<u64, RunError>)
    ensures
        r == file_check(facts),
{
    match facts {
        None => Err(RunError::File(FileProblem::NotFound)),
        Some(f) => {
            if f.is_dir {
                return Err(RunError::File(FileProblem::IsDirectory));
            }
            if f.len == 0 {
                return Err(RunError::File(FileProblem::Empty));
            }
            Ok(f.len)
        },
    }
}

/// The terminal size in (columns, rows) from what the terminal reported;
/// no answer, or a zero dimension, is no usable terminal.
pub open spec fn terminal_check(probe: Option<(u16, u16)>) -> Result<(u16, u16), RunError> {
    match probe {
        Some((w, h)) => if w > 0 && h > 0 {
            Ok((w, h))
        } else {
            Err(RunError::TerminalSize)
        },
        None => Err(RunError::TerminalSize),
    }
}

/// Accepts a terminal size of positive columns and rows.
pub fn get_terminal_size(probe: Option<(u16, u16)>) -> (r: Result<(u16, u16), RunError>)
    ensures
        r == terminal_check(probe),
{
    match probe {
        Some((w, h)) => {
            if w > 0 && h > 0 {
                Ok((w, h))
            } else {
                Err(RunError::TerminalSize)
            }
        },
        None => Err(RunError::TerminalSize),
    }
}

/// The request for the given options, input file, glyph and terminal size:
/// each explicit size overrides its default, the first numeric option (in
/// the order width, height, font width, font height) that holds no positive
/// number is an error.
pub open spec fn resolution(opts: OptionSet, filename: String, glyph: String, term: (u16, u16)) -> Result<RenderRequest, RunError> {
    if !numeric_ok(opts.width) {
        Err(RunError::InvalidNumericOption(NumericOption::Width))
    } else if !numeric_ok(opts.height) {
        Err(RunError::InvalidNumericOption(NumericOption::Height))
    } else if !numeric_ok(opts.font_width) {
        Err(RunError::InvalidNumericOption(NumericOption::FontWidth))
    } else if !numeric_ok(opts.font_height) {
        Err(RunError::InvalidNumericOption(NumericOption::FontHeight))
    } else {
        Ok(RenderRequest {
            filename,
            output_width: numeric_or(opts.width, term.0),
            output_height: numeric_or(opts.height, term.1),
            font_width: numeric_or(opts.font_width, DEFAULT_FONT_WIDTH),
            font_height: numeric_or(opts.font_height, DEFAULT_FONT_HEIGHT),
            glyph,
            mode: mode_mask(opts.glyph is Some, opts.reverse, opts.blink),
        })
    }
}

/// Resolves sizes and display mode into a rendering request.
pub fn resolve_request(opts: &OptionSet, filename: String, glyph: String, term: (u16, u16)) -> (r: Result<RenderRequest, RunError>)
    requires
        term.0 > 0,
        term.1 > 0,
    ensures
        r == resolution(*opts, filename, glyph, term),
        r matches Ok(req) ==> req.wf(),
{
    let output_width = get_int_arg(NumericOption::Width, &opts.width, term.0)?;
    let output_height = get_int_arg(NumericOption::Height, &opts.height, term.1)?;
    let font_width = get_int_arg(NumericOption::FontWidth, &opts.font_width, DEFAULT_FONT_WIDTH)?;
    let font_height = get_int_arg(NumericOption::FontHeight, &opts.font_height, DEFAULT_FONT_HEIGHT)?;
    let mode = get_display_mode(opts);
    Ok(RenderRequest { filename, output_width, output_height, font_width, font_height, glyph, mode })
}

} // verus!
