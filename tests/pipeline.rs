use ansi_show::error::{FileProblem, NumericOption, RunError};
use ansi_show::glyph::{check_character, check_character_count, default_glyph};
use ansi_show::mode::{compose_mode, get_display_mode, BLINK, NORMAL, REVERSE};
use ansi_show::numbers::{get_int_arg, parse_positive};
use ansi_show::options::{parse_options, usage_text, OptionSet};
use ansi_show::request::{
    check_file, get_terminal_size, resolve_request, FileFacts, RenderRequest,
};
use ansi_show::run::{plan, AwaitFile, AwaitTerminal, Plan};

fn args(list: &[&str]) -> Vec<String> {
    list.iter().map(|s| s.to_string()).collect()
}

fn options(list: &[&str]) -> OptionSet {
    parse_options(&args(list)).expect("arguments parse")
}

fn resolve(list: &[&str], term: (u16, u16)) -> Result<RenderRequest, RunError> {
    let opts = options(list);
    resolve_request(&opts, "pic.png".to_string(), " ".to_string(), term)
}

fn settled(list: &[&str]) -> AwaitFile {
    match plan(options(list)) {
        Ok(Plan::Render(stage)) => stage,
        other => panic!("expected a render plan, got {:?}", other),
    }
}

fn full_run(list: &[&str], facts: Option<FileFacts>, probe: Option<(u16, u16)>) -> Result<RenderRequest, RunError> {
    let stage = settled(list);
    let stage = stage.file_inspected(facts)?;
    stage.terminal_probed(probe)
}

const FILE: Option<FileFacts> = Some(FileFacts { is_dir: false, len: 1234 });

#[test]
fn mode_table_all_combinations() {
    // (glyph given, reverse, blink) -> mask
    let table = [
        (false, false, false, REVERSE),
        (false, false, true, REVERSE | BLINK),
        (false, true, false, REVERSE),
        (false, true, true, REVERSE | BLINK),
        (true, false, false, NORMAL),
        (true, false, true, BLINK),
        (true, true, false, REVERSE),
        (true, true, true, REVERSE | BLINK),
    ];
    for (c, r, b, expected) in table {
        assert_eq!(compose_mode(c, r, b), expected, "c={} r={} b={}", c, r, b);
    }
}

#[test]
fn mode_bit_values() {
    assert_eq!(NORMAL, 0);
    assert_eq!(REVERSE & BLINK, 0);
    assert_ne!(REVERSE, 0);
    assert_ne!(BLINK, 0);
}

#[test]
fn display_mode_from_command_line() {
    assert_eq!(get_display_mode(&options(&["pic.png"])), REVERSE);
    assert_eq!(get_display_mode(&options(&["-b", "pic.png"])), REVERSE | BLINK);
    assert_eq!(get_display_mode(&options(&["-c", "#", "pic.png"])), NORMAL);
    assert_eq!(get_display_mode(&options(&["-c", "#", "-r", "pic.png"])), REVERSE);
    assert_eq!(get_display_mode(&options(&["-c", "#", "-r", "-b", "pic.png"])), REVERSE | BLINK);
}

#[test]
fn sizes_default_to_terminal() {
    let req = resolve(&["pic.png"], (100, 40)).unwrap();
    assert_eq!((req.output_width, req.output_height), (100, 40));
}

#[test]
fn explicit_width_keeps_terminal_height() {
    let req = resolve(&["-x", "50", "pic.png"], (100, 40)).unwrap();
    assert_eq!((req.output_width, req.output_height), (50, 40));
}

#[test]
fn explicit_height_keeps_terminal_width() {
    let req = resolve(&["-y", "12", "pic.png"], (100, 40)).unwrap();
    assert_eq!((req.output_width, req.output_height), (100, 12));
}

#[test]
fn unparseable_width_is_rejected() {
    assert_eq!(
        resolve(&["-x", "abc", "pic.png"], (100, 40)),
        Err(RunError::InvalidNumericOption(NumericOption::Width))
    );
    let err = full_run(&["-x", "abc", "pic.png"], FILE, Some((100, 40)));
    assert_eq!(err, Err(RunError::InvalidNumericOption(NumericOption::Width)));
}

#[test]
fn first_bad_numeric_option_is_reported() {
    assert_eq!(
        resolve(&["-x", "1", "-y", "zero", "--font-width", "q", "pic.png"], (100, 40)),
        Err(RunError::InvalidNumericOption(NumericOption::Height))
    );
    assert_eq!(
        resolve(&["--font-width", "q", "--font-height", "-", "pic.png"], (100, 40)),
        Err(RunError::InvalidNumericOption(NumericOption::FontWidth))
    );
    assert_eq!(
        resolve(&["--font-height", "70000", "pic.png"], (100, 40)),
        Err(RunError::InvalidNumericOption(NumericOption::FontHeight))
    );
}

#[test]
fn zero_width_is_rejected() {
    assert_eq!(
        resolve(&["-x", "0", "pic.png"], (100, 40)),
        Err(RunError::InvalidNumericOption(NumericOption::Width))
    );
}

#[test]
fn font_cell_defaults_and_overrides() {
    let req = resolve(&["pic.png"], (80, 24)).unwrap();
    assert_eq!((req.font_width, req.font_height), (8, 16));
    let req = resolve(&["--font-width", "10", "--font-height", "20", "pic.png"], (80, 24)).unwrap();
    assert_eq!((req.font_width, req.font_height), (10, 20));
}

#[test]
fn positive_numbers() {
    assert_eq!(parse_positive("50"), Some(50));
    assert_eq!(parse_positive("+7"), Some(7));
    assert_eq!(parse_positive("007"), Some(7));
    assert_eq!(parse_positive("65535"), Some(65535));
    assert_eq!(parse_positive("65536"), None);
    assert_eq!(parse_positive("123456789"), None);
    assert_eq!(parse_positive("0"), None);
    assert_eq!(parse_positive(""), None);
    assert_eq!(parse_positive("+"), None);
    assert_eq!(parse_positive("-1"), None);
    assert_eq!(parse_positive("12a"), None);
    assert_eq!(parse_positive(" 5"), None);
}

#[test]
fn int_arg_default_value_and_error() {
    assert_eq!(get_int_arg(NumericOption::Width, &None, 77), Ok(77));
    assert_eq!(get_int_arg(NumericOption::Width, &Some("31".to_string()), 77), Ok(31));
    assert_eq!(
        get_int_arg(NumericOption::FontHeight, &Some("x".to_string()), 16),
        Err(RunError::InvalidNumericOption(NumericOption::FontHeight))
    );
}

#[test]
fn one_grapheme_of_two_code_points_is_accepted() {
    let accent = "e\u{301}".to_string();
    assert_eq!(accent.chars().count(), 2);
    assert_eq!(check_character(accent.clone()), Ok(accent));
    let flag = "\u{1F1EB}\u{1F1F7}".to_string();
    assert_eq!(check_character(flag.clone()), Ok(flag));
}

#[test]
fn two_characters_are_rejected() {
    assert_eq!(check_character("ab".to_string()), Err(RunError::InvalidCharacter("ab".to_string())));
    assert_eq!(check_character(String::new()), Err(RunError::InvalidCharacter(String::new())));
    assert_eq!(check_character("#".to_string()), Ok("#".to_string()));
}

#[test]
fn grapheme_count_decides() {
    assert_eq!(check_character_count("x".to_string(), 1), Ok("x".to_string()));
    assert_eq!(check_character_count("xy".to_string(), 2), Err(RunError::InvalidCharacter("xy".to_string())));
    assert_eq!(check_character_count(String::new(), 0), Err(RunError::InvalidCharacter(String::new())));
}

#[test]
fn default_glyph_is_a_space() {
    assert_eq!(default_glyph(), " ");
    assert_eq!(settled(&["pic.png"]).glyph, " ");
    assert_eq!(settled(&["-c", "@", "pic.png"]).glyph, "@");
}

#[test]
fn plan_rejects_multi_grapheme_glyph() {
    assert_eq!(
        plan(options(&["-c", "ab", "pic.png"])),
        Err(RunError::InvalidCharacter("ab".to_string()))
    );
}

#[test]
fn file_checks() {
    assert_eq!(check_file(None), Err(RunError::File(FileProblem::NotFound)));
    assert_eq!(
        check_file(Some(FileFacts { is_dir: true, len: 4096 })),
        Err(RunError::File(FileProblem::IsDirectory))
    );
    assert_eq!(
        check_file(Some(FileFacts { is_dir: false, len: 0 })),
        Err(RunError::File(FileProblem::Empty))
    );
    assert_eq!(check_file(Some(FileFacts { is_dir: false, len: 9 })), Ok(9));
}

#[test]
fn empty_file_stops_before_terminal() {
    let stage = settled(&["pic.png"]);
    let result = stage.file_inspected(Some(FileFacts { is_dir: false, len: 0 }));
    assert_eq!(result, Err(RunError::File(FileProblem::Empty)));
}

#[test]
fn terminal_checks() {
    assert_eq!(get_terminal_size(None), Err(RunError::TerminalSize));
    assert_eq!(get_terminal_size(Some((0, 30))), Err(RunError::TerminalSize));
    assert_eq!(get_terminal_size(Some((80, 0))), Err(RunError::TerminalSize));
    assert_eq!(get_terminal_size(Some((80, 24))), Ok((80, 24)));
    let stage = AwaitTerminal {
        options: options(&["-x", "10", "-y", "5", "pic.png"]),
        filename: "pic.png".to_string(),
        glyph: " ".to_string(),
    };
    assert_eq!(stage.terminal_probed(None), Err(RunError::TerminalSize));
}

#[test]
fn help_wins_over_everything() {
    assert_eq!(plan(options(&["--help"])), Ok(Plan::Help));
    assert_eq!(plan(options(&["--help", "-x", "abc", "-c", "many"])), Ok(Plan::Help));
    assert_eq!(plan(options(&["-r", "--help", "pic.png"])), Ok(Plan::Help));
}

#[test]
fn usage_text_lists_options() {
    let text = usage_text();
    assert!(text.starts_with("Usage: ansi_image [OPTION] [IMAGE FILE]"));
    assert!(text.contains("--font-width"));
    assert!(text.contains("--help"));
}

#[test]
fn missing_input_is_reported() {
    assert_eq!(plan(options(&[])), Err(RunError::MissingInput));
    assert_eq!(plan(options(&["-b", "-x", "5"])), Err(RunError::MissingInput));
}

#[test]
fn parse_collects_flags_values_and_positionals() {
    let o = options(&["-r", "-b", "-v", "-c", "#", "-x", "9", "pic.png", "--font-height", "12", "more.png"]);
    assert!(o.reverse && o.blink && o.verbose && !o.help);
    assert_eq!(o.glyph, Some("#".to_string()));
    assert_eq!(o.width, Some("9".to_string()));
    assert_eq!(o.height, None);
    assert_eq!(o.font_height, Some("12".to_string()));
    assert_eq!(o.free, vec!["pic.png".to_string(), "more.png".to_string()]);
    assert_eq!(settled(&["a.png", "b.png"]).filename, "a.png");
}

#[test]
fn plain_arguments_are_all_positional() {
    let o = options(&["-", "pic.png", "x"]);
    assert!(!o.help && !o.verbose && !o.reverse && !o.blink);
    assert_eq!((o.width, o.height, o.glyph), (None, None, None));
    assert_eq!((o.font_width, o.font_height), (None, None));
    assert_eq!(o.free, args(&["-", "pic.png", "x"]));
}

#[test]
fn long_and_short_aliases_agree() {
    assert!(options(&["--verbose", "pic.png"]).verbose);
    assert!(options(&["-v", "pic.png"]).verbose);
    assert_eq!(options(&["-x50", "pic.png"]).width, Some("50".to_string()));
    assert_eq!(options(&["--font-width=12", "pic.png"]).font_width, Some("12".to_string()));
}

#[test]
fn parse_errors() {
    assert!(matches!(parse_options(&args(&["-z", "pic.png"])), Err(RunError::ArgumentParse(_))));
    assert!(matches!(parse_options(&args(&["pic.png", "-x"])), Err(RunError::ArgumentParse(_))));
    assert!(matches!(parse_options(&args(&["--help=1"])), Err(RunError::ArgumentParse(_))));
    assert!(matches!(parse_options(&args(&["-x", "1", "-x", "2"])), Err(RunError::ArgumentParse(_))));
    match parse_options(&args(&["-z"])) {
        Err(RunError::ArgumentParse(msg)) => assert!(msg.contains("Unrecognized option"), "{}", msg),
        other => panic!("expected a parse error, got {:?}", other),
    }
}

#[test]
fn full_run_request() {
    let req = full_run(&["-c", "@", "-b", "-x", "30", "pic.png"], FILE, Some((100, 40))).unwrap();
    assert_eq!(
        req,
        RenderRequest {
            filename: "pic.png".to_string(),
            output_width: 30,
            output_height: 40,
            font_width: 8,
            font_height: 16,
            glyph: "@".to_string(),
            mode: BLINK,
        }
    );
}

#[test]
fn repeated_runs_give_identical_requests() {
    let line = ["-y", "20", "pic.png"];
    let first = full_run(&line, FILE, Some((100, 40)));
    let second = full_run(&line, FILE, Some((100, 40)));
    assert!(first.is_ok());
    assert_eq!(first, second);
}
