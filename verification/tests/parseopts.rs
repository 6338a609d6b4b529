use rscope::parseopts::{
    command_from, get_options, is_number, options_from, parse_count, Command, Findings,
    OptError, OscOpts, Refusal, DEFAULT_SAMPLES_PER_FRAME,
};

fn args(list: &[&str]) -> Vec<String> {
    list.iter().map(|s| s.to_string()).collect()
}

fn run(magnification: &str, samples_per_frame: usize) -> Result<Command, OptError> {
    Ok(Command::Run(OscOpts { magnification: magnification.to_string(), samples_per_frame }))
}

#[test]
fn counts_are_decimal_digits() {
    assert_eq!(parse_count("1024"), Some(1024));
    assert_eq!(parse_count("0"), Some(0));
    assert_eq!(parse_count("00012"), Some(12));
    assert_eq!(parse_count("+5"), Some(5));
}

#[test]
fn counts_agree_with_the_standard_parser() {
    for text in [
        "", "+", "-", "-1", "-0", "++1", "+-1", "12a", "a12", " 12", "12 ", "1_000", "1.0", "0x10",
        "٣", "7", "+0", "18446744073709551615", "18446744073709551616", "4294967295",
        "4294967296", "99999999999999999999999999",
    ] {
        assert_eq!(parse_count(text), text.parse::<usize>().ok(), "{:?}", text);
    }
    let most = usize::MAX.to_string();
    assert_eq!(parse_count(&most), Some(usize::MAX));
}

#[test]
fn settings_default_to_one_and_1024() {
    assert_eq!(DEFAULT_SAMPLES_PER_FRAME, 1024);
    assert_eq!(
        options_from(None, None),
        Ok(OscOpts { magnification: "1.0".to_string(), samples_per_frame: 1024 })
    );
}

#[test]
fn settings_take_what_is_given() {
    assert_eq!(
        options_from(Some("2.5".to_string()), Some("512".to_string())),
        Ok(OscOpts { magnification: "2.5".to_string(), samples_per_frame: 512 })
    );
    assert_eq!(
        options_from(Some("-1e-3".to_string()), None),
        Ok(OscOpts { magnification: "-1e-3".to_string(), samples_per_frame: 1024 })
    );
}

#[test]
fn settings_want_a_number_for_the_magnification() {
    assert_eq!(options_from(Some("big".to_string()), None), Err(OptError::Magnification));
    assert_eq!(options_from(Some("".to_string()), None), Err(OptError::Magnification));
    assert_eq!(
        options_from(Some("1,5".to_string()), Some("512".to_string())),
        Err(OptError::Magnification)
    );
}

#[test]
fn a_bad_magnification_is_told_before_bad_samples() {
    assert_eq!(
        options_from(Some("wide".to_string()), Some("many".to_string())),
        Err(OptError::Magnification)
    );
    assert_eq!(
        get_options("rscope", &args(&["-s", "many", "-m", "wide"])),
        Err(OptError::Magnification)
    );
}

#[test]
fn settings_want_at_least_one_sample() {
    assert_eq!(options_from(None, Some("0".to_string())), Err(OptError::Samples));
    assert_eq!(options_from(None, Some("+0".to_string())), Err(OptError::Samples));
    assert_eq!(options_from(None, Some("000".to_string())), Err(OptError::Samples));
    assert_eq!(
        options_from(None, Some("1".to_string())),
        Ok(OscOpts { magnification: "1.0".to_string(), samples_per_frame: 1 })
    );
}

#[test]
fn numbers_agree_with_the_standard_parser() {
    for text in [
        "", "+", "-", ".", "+.", "-.", "e", "e5", ".e5", "1", "1.", ".1", "1.5", "+1.5", "-1.5",
        "++1", "+-1", "--1", "1e5", "1E5", "1e+5", "1e-5", "1e", "1e+", "1e-", "1e5.", "1e5e5",
        "1.e5", "1.5e10", ".5e-3", "+.5E+3", "1..5", "1.5.", "1 ", " 1", "1_0", "0x10", "1f",
        "1.0f32", "inf", "Inf", "INF", "+inf", "-inf", "infinity", "Infinity", "INFINITY",
        "-InFiNiTy", "infinit", "infinityy", "in", "nan", "NaN", "NAN", "-nan", "+NaN", "nane",
        "na", "n", "i", "wide", "1,5", "٣", "1e٣", "0", "00", "000.000", "-0", "1e400", "1e-400",
        "123456789012345678901234567890", "0.000000000000000000000000000000000000000000001",
        "1e99999999999999999999", "\u{7f}", "iNF", "iNFINITY", "\tnan", "1\n", "IN\u{46}",
        "\u{49}nf", "i\u{4e}f", "\u{9}nf", "\u{29}nf", "N\u{1}N", "e1", "E", "+e1", ".E1", "5.E",
    ] {
        assert_eq!(is_number(text), text.parse::<f32>().is_ok(), "{:?}", text);
    }
}

#[test]
fn settings_want_a_count_of_samples() {
    assert_eq!(options_from(None, Some("many".to_string())), Err(OptError::Samples));
    assert_eq!(options_from(Some("2".to_string()), Some("-3".to_string())), Err(OptError::Samples));
    assert_eq!(options_from(None, Some("".to_string())), Err(OptError::Samples));
}

#[test]
fn no_arguments_give_the_defaults() {
    assert_eq!(get_options("rscope", &args(&[])), run("1.0", 1024));
}

#[test]
fn short_options_are_read() {
    assert_eq!(get_options("rscope", &args(&["-m", "2.5", "-s", "512"])), run("2.5", 512));
    assert_eq!(get_options("rscope", &args(&["-s64"])), run("1.0", 64));
}

#[test]
fn long_options_are_read() {
    assert_eq!(
        get_options("rscope", &args(&["--magnification", "0.5", "--samples=2048"])),
        run("0.5", 2048)
    );
}

#[test]
fn free_arguments_are_passed_over() {
    assert_eq!(get_options("rscope", &args(&["left", "-s", "8", "right"])), run("1.0", 8));
}

#[test]
fn no_samples_at_all_are_an_error() {
    assert_eq!(get_options("rscope", &args(&["-s", "0"])), Err(OptError::Samples));
    assert_eq!(get_options("rscope", &args(&["--samples=0", "-m", "2"])), Err(OptError::Samples));
    assert_eq!(get_options("rscope", &args(&["-s", "1"])), run("1.0", 1));
}

#[test]
fn a_magnification_that_is_no_number_is_an_error() {
    assert_eq!(get_options("rscope", &args(&["-m", "wide"])), Err(OptError::Magnification));
    assert_eq!(
        get_options("rscope", &args(&["--magnification=1.5x", "-s", "8"])),
        Err(OptError::Magnification)
    );
    assert_eq!(get_options("rscope", &args(&["-m", "inf"])), run("inf", 1024));
}

#[test]
fn the_help_text_is_the_usage_under_the_brief_line() {
    let mut opts = getopts::Options::new();
    opts.optopt("m", "magnification", "set magnification", "DOUBLE");
    opts.optopt("s", "samples", "set samples per frame", "INT");
    opts.optflag("h", "help", "print this help menu");
    for program in ["rscope", "", "./target/rscope", "a b"] {
        let expected = opts.usage(&format!("Usage: {} [options]", program));
        assert_eq!(get_options(program, &args(&["-h"])), Ok(Command::Help(expected.clone())));
        assert_eq!(
            get_options(program, &args(&["-h", "-s", "abc", "-m", "wide"])),
            Ok(Command::Help(expected))
        );
    }
}

fn findings(help: bool, magnification: Option<&str>, samples: Option<&str>) -> Findings {
    Findings {
        help,
        usage: "how to".to_string(),
        magnification: magnification.map(|s| s.to_string()),
        samples: samples.map(|s| s.to_string()),
    }
}

#[test]
fn help_goes_before_the_settings() {
    assert_eq!(
        command_from(Ok(findings(true, None, None))),
        Ok(Command::Help("how to".to_string()))
    );
    assert_eq!(
        command_from(Ok(findings(true, Some("wide"), Some("abc")))),
        Ok(Command::Help("how to".to_string()))
    );
    assert_eq!(
        command_from(Ok(findings(true, Some("2"), Some("0")))),
        Ok(Command::Help("how to".to_string()))
    );
}

#[test]
fn without_help_the_settings_decide() {
    assert_eq!(command_from(Ok(findings(false, None, None))), run("1.0", 1024));
    assert_eq!(command_from(Ok(findings(false, Some("2.5"), Some("64")))), run("2.5", 64));
    assert_eq!(
        command_from(Ok(findings(false, Some("wide"), Some("64")))),
        Err(OptError::Magnification)
    );
    assert_eq!(command_from(Ok(findings(false, Some("2"), Some("abc")))), Err(OptError::Samples));
    assert_eq!(command_from(Ok(findings(false, None, Some("0")))), Err(OptError::Samples));
}

#[test]
fn a_refusal_becomes_a_usage_error_with_its_message() {
    assert_eq!(
        command_from(Err(Refusal::UnrecognizedOption("bogus".to_string()))),
        Err(OptError::Usage("Unrecognized option: 'bogus'".to_string()))
    );
}

#[test]
fn refusals_are_worded_as_getopts_words_them() {
    let name = || "samples".to_string();
    let pairs = [
        (Refusal::ArgumentMissing(name()), getopts::Fail::ArgumentMissing(name())),
        (Refusal::UnrecognizedOption(name()), getopts::Fail::UnrecognizedOption(name())),
        (Refusal::OptionMissing(name()), getopts::Fail::OptionMissing(name())),
        (Refusal::OptionDuplicated(name()), getopts::Fail::OptionDuplicated(name())),
        (Refusal::UnexpectedArgument(name()), getopts::Fail::UnexpectedArgument(name())),
    ];
    for (refusal, fail) in pairs {
        assert_eq!(refusal.message(), fail.to_string());
    }
}

#[test]
fn an_unknown_long_option_is_turned_down() {
    assert_eq!(
        get_options("rscope", &args(&["--bogus"])),
        Err(OptError::Usage("Unrecognized option: 'bogus'".to_string()))
    );
}

#[test]
fn help_gives_the_usage_text() {
    for list in [&["-h"][..], &["--help"], &["-s", "16", "-h"], &["-h", "-s", "sixteen"]] {
        match get_options("rscope", &args(list)) {
            Ok(Command::Help(text)) => {
                assert!(text.starts_with("Usage: rscope [options]\n\nOptions:\n"));
                assert!(text.contains("-m, --magnification DOUBLE"));
                assert!(text.contains("set magnification"));
                assert!(text.contains("-s, --samples INT"));
                assert!(text.contains("set samples per frame"));
                assert!(text.contains("-h, --help"));
                assert!(text.contains("print this help menu"));
            }
            other => panic!("no help: {:?}", other),
        }
    }
}

#[test]
fn an_unknown_option_is_turned_down() {
    assert_eq!(
        get_options("rscope", &args(&["-x"])),
        Err(OptError::Usage("Unrecognized option: 'x'".to_string()))
    );
}

#[test]
fn an_option_without_its_argument_is_turned_down() {
    assert_eq!(
        get_options("rscope", &args(&["--samples"])),
        Err(OptError::Usage("Argument to option 'samples' missing".to_string()))
    );
}

#[test]
fn an_option_given_twice_is_turned_down() {
    assert_eq!(
        get_options("rscope", &args(&["-s", "1", "--samples", "2"])),
        Err(OptError::Usage("Option 'samples' given more than once".to_string()))
    );
}

#[test]
fn a_flag_with_an_argument_is_turned_down() {
    assert_eq!(
        get_options("rscope", &args(&["--help=now"])),
        Err(OptError::Usage("Option 'help' does not take an argument".to_string()))
    );
}

#[test]
fn samples_that_are_no_count_are_an_error() {
    assert_eq!(get_options("rscope", &args(&["-s", "lots"])), Err(OptError::Samples));
    assert_eq!(get_options("rscope", &args(&["-m", "3", "-s", "1.5"])), Err(OptError::Samples));
}
