use vstd::prelude::*;
use crate::error::RunError;
use crate::glyph::{check_character, default_glyph, grapheme_count_of};
use crate::options::OptionSet;
use crate::request::{
    check_file, file_check, get_terminal_size, resolution, resolve_request, terminal_check,
    FileFacts, RenderRequest,
};

verus! {

/// A run whose options, input path and glyph are settled, waiting for what
/// the file system reports about the input path.
#[derive(Debug, Clone, PartialEq, Eq)]
pub struct AwaitFile {
    pub options: OptionSet,
    pub filename: String,
    pub glyph: String,
}

/// A run whose input file was accepted, waiting for the terminal size.
#[derive(Debug, Clone, PartialEq, Eq)]
pub struct AwaitTerminal {
    pub options: OptionSet,
    pub filename: String,
    pub glyph: String,
}

/// What a run does once its command line is understood.
#[derive(Debug, Clone, PartialEq, Eq)]
pub enum Plan {
    /// Print the help text and stop successfully.
    Help,
    /// Go on to check the input file.
    Render(AwaitFile),
}

/// The glyph text a run asks for: the `-c` value, or the default space.
pub open spec fn glyph_text(options: OptionSet) -> Seq<char> {
    match options.glyph {
        Some(g) => g@,
        None => seq![' '],
    }
}

/// Decides what to do with parsed options: help wins over everything else;
/// then an input path is required, and the glyph must be exactly one
/// user-perceived character.
pub fn plan(options: OptionSet) -> (r: Result<Plan, RunError>)
    ensures
        options.help ==> r == Ok::<Plan, RunError>(Plan::Help),
        !options.help && options.free.len() == 0 ==> r == Err::<Plan, RunError>(RunError::MissingInput),
        !options.help && options.free.len() > 0 && grapheme_count_of(glyph_text(options)) == 1 ==> (
            r matches Ok(Plan::Render(p))
                && p.options == options
                && p.filename == options.free[0]
                && p.glyph@ == glyph_text(options)),
        !options.help && options.free.len() > 0 && grapheme_count_of(glyph_text(options)) != 1 ==> (
            r matches Err(RunError::InvalidCharacter(g)) && g@ == glyph_text(options)),
        !options.help && options.free.len() > 0 && options.glyph is None ==> r is Ok,
{
    if options.help {
        return Ok(Plan::Help);
    }
    if options.free.len() == 0 {
        return Err(RunError::MissingInput);
    }
    let requested = match &options.glyph {
        Some(g) => g.clone(),
        None => default_glyph(),
    };
    let glyph = check_character(requested)?;
    let filename = options.free[0].clone();
    Ok(Plan::Render(AwaitFile { options, filename, glyph }))
}

/// The next stage of a run, given what the file system reported.
pub open spec fn after_file(stage: AwaitFile, facts: Option<FileFacts>) -> Result<AwaitTerminal, RunError> {
    match file_check(facts) {
        Ok(_) => Ok(AwaitTerminal { options: stage.options, filename: stage.filename, glyph: stage.glyph }),
        Err(e) => Err(e),
    }
}

/// The request of a run, given what the terminal reported.
pub open spec fn after_terminal(stage: AwaitTerminal, probe: Option<(u16, u16)>) -> Result<RenderRequest, RunError> {
    match terminal_check(probe) {
        Ok(term) => resolution(stage.options, stage.filename, stage.glyph, term),
        Err(e) => Err(e),
    }
}

impl AwaitFile {
    /// Accepts the input file, or stops the run before the terminal is asked.
    pub fn file_inspected(self, facts: Option<FileFacts>) -> (r: Result<AwaitTerminal, RunError>)
        ensures
            r == after_file(self, facts),
    {
        check_file(facts)?;
        Ok(AwaitTerminal { options: self.options, filename: self.filename, glyph: self.glyph })
    }
}

impl AwaitTerminal {
    /// Resolves the rendering request once the terminal size is known.
    pub fn terminal_probed(self, probe: Option<(u16, u16)>) -> (r: Result<RenderRequest, RunError>)
        ensures
            r == after_terminal(self, probe),
            r matches Ok(req) ==> req.wf(),
    {
        let term = get_terminal_size(probe)?;
        resolve_request(&self.options, self.filename, self.glyph, term)
    }
}

/// A run repeated on the same settled command line, with the file system
/// and the terminal reporting the same as before, yields the same request
/// (or the same error) both times.
pub proof fn repeated_run_same_request(
    first: AwaitFile,
    second: AwaitFile,
    facts: Option<FileFacts>,
    probe: Option<(u16, u16)>,
)
    requires
        first == second,
    ensures
        after_file(first, facts) == after_file(second, facts),
        after_file(first, facts) matches Ok(t1) ==> (after_file(second, facts) matches Ok(t2)
            && after_terminal(t1, probe) == after_terminal(t2, probe)),
{
}

/// An input file that is reported empty stops the run before the terminal
/// is asked.
pub proof fn empty_file_stops_run(stage: AwaitFile, facts: Option<FileFacts>)
    requires
        facts matches Some(f) && f.len == 0,
    ensures
        after_file(stage, facts) is Err,
{
}

} // verus!
