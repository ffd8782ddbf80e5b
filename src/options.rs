use vstd::prelude::*;
use vstd::string::is_ascii;
use crate::error::RunError;

verus! {

#[verifier::external_type_specification]
#[verifier::external_body]
pub struct ExOptions(getopts::Options);

#[verifier::external_type_specification]
#[verifier::external_body]
pub struct ExMatches(getopts::Matches);

#[verifier::external_type_specification]
#[verifier::external_body]
pub struct ExFail(getopts::Fail);

/// The option names (short and long) that a getopts option table declares.
pub uninterp spec fn declared_names(o: getopts::Options) -> Set<Seq<char>>;

/// The options that a getopts table declares, in order: short name, long
/// name, and whether the option takes a value. Tables built with `new`,
/// `optflag` and `optopt` hold optional options only, parsed with getopts'
/// default style (positional arguments may stand anywhere).
pub uninterp spec fn declared_options(o: getopts::Options) -> Seq<(Seq<char>, Seq<char>, bool)>;

/// The option names that a getopts parse result can be asked about.
pub uninterp spec fn queryable_names(m: getopts::Matches) -> Set<Seq<char>>;

/// The names for which a getopts parse result reports the option present.
pub uninterp spec fn present_names(m: getopts::Matches) -> Set<Seq<char>>;

/// For each name whose option was given a value, the value a getopts parse
/// result reports for it.
pub uninterp spec fn option_values(m: getopts::Matches) -> Map<Seq<char>, Seq<char>>;

/// The positional arguments of a getopts parse result, in order.
pub uninterp spec fn free_list(m: getopts::Matches) -> Seq<Seq<char>>;

/// What getopts makes of the argument texts under a table of optional
/// options: `None` when it refuses them, else the names present, the value
/// of each name given one, and the positional arguments.
pub uninterp spec fn getopts_parse(
    table: Seq<(Seq<char>, Seq<char>, bool)>,
    args: Seq<Seq<char>>,
) -> Option<(Set<Seq<char>>, Map<Seq<char>, Seq<char>>, Seq<Seq<char>>)>;

/// All that a getopts parse result reports.
pub open spec fn parse_content(m: getopts::Matches) -> (Set<Seq<char>>, Map<Seq<char>, Seq<char>>, Seq<Seq<char>>) {
    (present_names(m), option_values(m), free_list(m))
}

/// A parse that finds no option and takes every argument as positional.
pub open spec fn all_free(args: Seq<Seq<char>>) -> (Set<Seq<char>>, Map<Seq<char>, Seq<char>>, Seq<Seq<char>>) {
    (Set::empty(), Map::empty(), args)
}

/// The texts of a list of strings.
pub open spec fn texts(args: Seq<String>) -> Seq<Seq<char>> {
    args.map_values(|s: String| s@)
}

/// Arguments none of which getopts reads as an option.
pub open spec fn all_positional(args: Seq<Seq<char>>) -> bool {
    forall|i: int| 0 <= i < args.len() ==> !looks_like_option(#[trigger] args[i])
}

/// An argument that getopts reads as an option (or as `--`): it starts with
/// `-` and is longer than that.
pub open spec fn looks_like_option(a: Seq<char>) -> bool {
    a.len() > 1 && a[0] == '-'
}

/// The non-empty names among a short and a long option name.
pub open spec fn names_of(short: Seq<char>, long: Seq<char>) -> Set<Seq<char>> {
    let s = if short.len() > 0 { Set::empty().insert(short) } else { Set::empty() };
    if long.len() > 0 { s.insert(long) } else { s }
}

/// Option names that getopts accepts: ASCII, a short name of at most one
/// character, a long name of none or more than one, and not both empty.
pub open spec fn valid_names(short: &str, long: &str) -> bool {
    &&& is_ascii(short)
    &&& is_ascii(long)
    &&& short@.len() <= 1
    &&& long@.len() != 1
    &&& short@.len() + long@.len() > 0
}

/// Relies on getopts::Options::new: a table with no option declared.
pub assume_specification[ getopts::Options::new ]() -> (r: getopts::Options)
    ensures
        declared_names(r) == Set::<Seq<char>>::empty(),
        declared_options(r) == Seq::<(Seq<char>, Seq<char>, bool)>::empty(),
;

/// Relies on getopts::Options::usage: the text starts with the brief line.
pub assume_specification[ getopts::Options::usage ](o: &getopts::Options, brief: &str) -> (r: String)
    ensures
        brief@.is_prefix_of(r@),
;

/// Relies on getopts::Matches::opt_present: whether the option was given;
/// it panics for a name the table never declared.
pub assume_specification[ getopts::Matches::opt_present ](m: &getopts::Matches, name: &str) -> (r: bool)
    requires
        queryable_names(*m).contains(name@),
    ensures
        r == present_names(*m).contains(name@),
;

/// Relies on getopts::Matches::opt_str: the value given to the option, if
/// any; it panics for a name the table never declared.
pub assume_specification[ getopts::Matches::opt_str ](m: &getopts::Matches, name: &str) -> (r: Option<String>)
    requires
        queryable_names(*m).contains(name@),
    ensures
        (r is Some) == option_values(*m).contains_key(name@),
        r matches Some(v) ==> v@ == option_values(*m)[name@],
;

/// Relies on getopts::Options::optflag: declares a flag without a value.
#[verifier::external_body]
fn declare_flag(o: &mut getopts::Options, short: &str, long: &str, desc: &str)
    requires
        valid_names(short, long),
    ensures
        declared_names(*final(o)) == declared_names(*old(o)).union(names_of(short@, long@)),
        declared_options(*final(o)) == declared_options(*old(o)).push((short@, long@, false)),
{
    o.optflag(short, long, desc);
}

/// Relies on getopts::Options::optopt: declares an option that takes a value.
#[verifier::external_body]
fn declare_value(o: &mut getopts::Options, short: &str, long: &str, desc: &str, hint: &str)
    requires
        valid_names(short, long),
    ensures
        declared_names(*final(o)) == declared_names(*old(o)).union(names_of(short@, long@)),
        declared_options(*final(o)) == declared_options(*old(o)).push((short@, long@, true)),
{
    o.optopt(short, long, desc, hint);
}

/// Relies on getopts::Options::parse: its outcome depends on the table and
/// the argument texts alone; a successful parse can be asked about every
/// declared name; and arguments none of which looks like an option are all
/// positional, with no option present.
#[verifier::external_body]
fn parse_with(o: &getopts::Options, args: &Vec<String>) -> (r: Result<getopts::Matches, getopts::Fail>)
    ensures
        (r is Ok) == (getopts_parse(declared_options(*o), texts(args@)) is Some),
        r matches Ok(m) ==> queryable_names(m) == declared_names(*o),
        r matches Ok(m) ==> getopts_parse(declared_options(*o), texts(args@))
            == Some(parse_content(m)),
        all_positional(texts(args@)) ==> r is Ok,
        r matches Ok(m) ==> (all_positional(texts(args@)) ==> parse_content(m) == all_free(texts(args@))),
{
    o.parse(args)
}

/// Relies on the public field getopts::Matches::free: the arguments that
/// are no option or option value, in order.
#[verifier::external_body]
fn free_args(m: &getopts::Matches) -> (r: Vec<String>)
    ensures
        texts(r@) == free_list(*m),
{
    m.free.clone()
}

/// Relies on getopts::Fail's Display: a readable description of the failure.
#[verifier::external_body]
fn describe_failure(f: &getopts::Fail) -> String {
    f.to_string()
}

/// The command line after parsing: which flags are present, the value of
/// each value option, and the remaining positional arguments in order.
#[derive(Debug, Clone, PartialEq, Eq)]
pub struct OptionSet {
    pub help: bool,
    pub verbose: bool,
    pub reverse: bool,
    pub blink: bool,
    pub width: Option<String>,
    pub height: Option<String>,
    pub glyph: Option<String>,
    pub font_width: Option<String>,
    pub font_height: Option<String>,
    pub free: Vec<String>,
}

/// Every name that the option table of this program declares.
pub open spec fn schema_names() -> Set<Seq<char>> {
    Set::empty()
        .insert("help"@)
        .insert("v"@)
        .insert("verbose"@)
        .insert("r"@)
        .insert("b"@)
        .insert("x"@)
        .insert("y"@)
        .insert("c"@)
        .insert("font-width"@)
        .insert("font-height"@)
}

/// The options of this program's table, in the order they are declared.
pub open spec fn schema_table() -> Seq<(Seq<char>, Seq<char>, bool)> {
    seq![
        (""@, "help"@, false),
        ("v"@, "verbose"@, false),
        ("r"@, ""@, false),
        ("b"@, ""@, false),
        ("x"@, ""@, true),
        ("y"@, ""@, true),
        ("c"@, ""@, true),
        (""@, "font-width"@, true),
        (""@, "font-height"@, true),
    ]
}

/// The text of an optional value.
pub open spec fn text_of(v: Option<String>) -> Option<Seq<char>> {
    match v {
        Some(s) => Some(s@),
        None => None,
    }
}

/// Whether an optional value holds what a parse reports under `name`.
pub open spec fn value_matches(v: Option<String>, values: Map<Seq<char>, Seq<char>>, name: Seq<char>) -> bool {
    match v {
        Some(s) => values.contains_key(name) && values[name] == s@,
        None => !values.contains_key(name),
    }
}

/// Whether an option set holds what a parse reports: the present names, the
/// values given, and the positional arguments.
pub open spec fn holds_parse(
    o: OptionSet,
    parsed: (Set<Seq<char>>, Map<Seq<char>, Seq<char>>, Seq<Seq<char>>),
) -> bool {
    let (present, values, free) = parsed;
    &&& o.help == present.contains("help"@)
    &&& o.verbose == present.contains("v"@)
    &&& o.reverse == present.contains("r"@)
    &&& o.blink == present.contains("b"@)
    &&& value_matches(o.width, values, "x"@)
    &&& value_matches(o.height, values, "y"@)
    &&& value_matches(o.glyph, values, "c"@)
    &&& value_matches(o.font_width, values, "font-width"@)
    &&& value_matches(o.font_height, values, "font-height"@)
    &&& texts(o.free@) == free
}

/// Builds the option table: `--help`, `-v`/`--verbose`, `-r`, `-b`, and the
/// value options `-x`, `-y`, `-c`, `--font-width`, `--font-height`.
pub fn option_table() -> (r: getopts::Options)
    ensures
        declared_names(r) == schema_names(),
        declared_options(r) == schema_table(),
{
    proof {
        reveal_strlit("");
        reveal_strlit("help");
        reveal_strlit("v");
        reveal_strlit("verbose");
        reveal_strlit("r");
        reveal_strlit("b");
        reveal_strlit("x");
        reveal_strlit("y");
        reveal_strlit("c");
        reveal_strlit("font-width");
        reveal_strlit("font-height");
    }
    let mut opts = getopts::Options::new();
    declare_flag(&mut opts, "", "help", "How to use this program.");
    declare_flag(&mut opts, "v", "verbose", "Verbose output");
    declare_flag(&mut opts, "r", "", "Background reverse");
    declare_flag(&mut opts, "b", "", "Blink");
    declare_value(&mut opts, "x", "", "Output width, in characters.", "NUMBER");
    declare_value(&mut opts, "y", "", "Output height, in characters.", "NUMBER");
    declare_value(&mut opts, "c", "", "Character", "CHARACTER");
    declare_value(&mut opts, "", "font-width", "Font width, in pixels", "NUMBER");
    declare_value(&mut opts, "", "font-height", "Font height, in pixels", "NUMBER");
    assert(declared_names(opts) =~= schema_names());
    assert(declared_options(opts) =~= schema_table());
    opts
}

/// The help text: the usage line followed by a description of each option.
pub fn usage_text() -> (r: String)
    ensures
        "Usage: ansi_image [OPTION] [IMAGE FILE]"@.is_prefix_of(r@),
{
    let opts = option_table();
    opts.usage("Usage: ansi_image [OPTION] [IMAGE FILE]")
}

/// Parses the command-line arguments (without the program name) against the
/// option table; a malformed or unknown argument is an argument error.
/// Arguments none of which looks like an option are all positional.
pub fn parse_options(args: &Vec<String>) -> (r: Result<OptionSet, RunError>)
    ensures
        (r is Ok) == (getopts_parse(schema_table(), texts(args@)) is Some),
        r matches Err(e) ==> e is ArgumentParse,
        r matches Ok(o) ==> (getopts_parse(schema_table(), texts(args@)) matches Some(parsed)
            && holds_parse(o, parsed)),
        all_positional(texts(args@)) ==> (r matches Ok(o)
                && !o.help && !o.verbose && !o.reverse && !o.blink
                && o.width is None && o.height is None && o.glyph is None
                && o.font_width is None && o.font_height is None
                && texts(o.free@) == texts(args@)),
{
    proof {
        reveal_strlit("help");
        reveal_strlit("v");
        reveal_strlit("r");
        reveal_strlit("b");
        reveal_strlit("x");
        reveal_strlit("y");
        reveal_strlit("c");
        reveal_strlit("font-width");
        reveal_strlit("font-height");
    }
    let opts = option_table();
    match parse_with(&opts, args) {
        Err(f) => Err(RunError::ArgumentParse(describe_failure(&f))),
        Ok(m) => Ok(OptionSet {
            help: m.opt_present("help"),
            verbose: m.opt_present("v"),
            reverse: m.opt_present("r"),
            blink: m.opt_present("b"),
            width: m.opt_str("x"),
            height: m.opt_str("y"),
            glyph: m.opt_str("c"),
            font_width: m.opt_str("font-width"),
            font_height: m.opt_str("font-height"),
            free: free_args(&m),
        }),
    }
}

/// Parsing the same argument texts twice gives option sets that agree:
/// the same flags, values with the same texts, and the same positional
/// arguments.
pub proof fn parse_determined(
    first: OptionSet,
    second: OptionSet,
    parsed: (Set<Seq<char>>, Map<Seq<char>, Seq<char>>, Seq<Seq<char>>),
)
    requires
        holds_parse(first, parsed),
        holds_parse(second, parsed),
    ensures
        first.help == second.help,
        first.verbose == second.verbose,
        first.reverse == second.reverse,
        first.blink == second.blink,
        text_of(first.width) == text_of(second.width),
        text_of(first.height) == text_of(second.height),
        text_of(first.glyph) == text_of(second.glyph),
        text_of(first.font_width) == text_of(second.font_width),
        text_of(first.font_height) == text_of(second.font_height),
        texts(first.free@) == texts(second.free@),
{
}

} // verus!
