use ion_cli::commands::beta::{AnalyzeNamespace, BetaNamespace, DepthCommand};
use ion_cli::commands::catalog::{
    CatCommand, CheckCommand, DumpCommand, GenerateCommand, HeadCommand, InspectCommand,
    JqCommand, SchemaNamespace, StatsCommand, SucksCommand, ValidateCommand,
};
use ion_cli::commands::io::{
    auto_decompression_enabled, command_io_settings, output_target, read_input_modes,
    resolve_color_choice, ColorChoice, Encoding, Format, InputType, IoSettings, OutputTarget,
    TextLayout,
};
use ion_cli::commands::{
    check_unstable_opt_in, command_help, has_unstable_subcommand, IonCliCommand, UnstableOptIn,
};
use ion_cli::validation::{
    empty_schema_version, exits_with_error, select_result_writer, validation_report_line,
    ResultKind, ResultWriter,
};

#[test]
fn commands_declare_their_names_and_stability() {
    assert_eq!(CatCommand.name(), "cat");
    assert!(CatCommand.is_stable());
    assert!(!CatCommand.is_porcelain());
    assert_eq!(DumpCommand.about(), "Deprecated alias for the `cat` command.");
    assert!(!DumpCommand.is_stable());
    assert_eq!(HeadCommand.name(), "head");
    assert_eq!(GenerateCommand.about(), "Generates code using given schema file.");
    assert_eq!(JqCommand.name(), "jq");
    assert_eq!(StatsCommand.name(), "stats");
    assert!(InspectCommand.is_stable() && InspectCommand.is_porcelain());
    assert_eq!(SucksCommand.about(), "");
    assert!(SchemaNamespace.is_stable() && !SchemaNamespace.is_porcelain());
    assert_eq!(CheckCommand.name(), "check");
    assert_eq!(ValidateCommand.name(), "validate");
    assert_eq!(BetaNamespace.name(), "beta");
    assert_eq!(AnalyzeNamespace.name(), "analyze");
    assert_eq!(DepthCommand.about(), "Prints the maximum depth of the input ion stream.");
    assert_eq!(CatCommand.long_about(), None);
}

#[test]
fn help_of_unstable_and_porcelain_commands() {
    let help = command_help("Prints things.", None, false, true);
    assert_eq!(help.about, "(UNSTABLE) Prints things.");
    assert_eq!(
        help.before_help.as_deref(),
        Some("WARNING: This command is unstable and requires explicit opt-in using '--unstable' or '-X'.")
    );
    assert_eq!(
        help.after_help.as_deref(),
        Some("NOTE: The output of this command is not intended to be machine-readable.")
    );
    let stable = command_help("Prints things.", Some("More."), true, false);
    assert_eq!(stable.about, "Prints things.");
    assert_eq!(stable.long_about.as_deref(), Some("More."));
    assert_eq!(stable.before_help, None);
    assert_eq!(stable.after_help, None);
}

#[test]
fn unstable_opt_in() {
    assert_eq!(check_unstable_opt_in(true, true), UnstableOptIn::Unnecessary);
    assert_eq!(check_unstable_opt_in(false, false), UnstableOptIn::Missing);
    assert_eq!(check_unstable_opt_in(true, false), UnstableOptIn::Accepted);
    assert_eq!(check_unstable_opt_in(false, true), UnstableOptIn::Accepted);
    assert!(has_unstable_subcommand(&vec![true, false]));
    assert!(!has_unstable_subcommand(&vec![true, true]));
    assert!(!has_unstable_subcommand(&vec![]));
}

/// The `--color` and `--no-color` flags after clap's overrides: the last one given wins.
fn flags(args: &str) -> (Option<bool>, Option<bool>) {
    let mut color = false;
    let mut no_color = false;
    for arg in args.split_ascii_whitespace() {
        if arg == "--color" {
            color = true;
            no_color = false;
        } else if arg == "--no-color" {
            no_color = true;
            color = false;
        }
    }
    (Some(color), Some(no_color))
}

#[test]
fn resolve_color_choice_args() {
    let cases = [
        (true, "test ", ColorChoice::Auto),
        (false, "test ", ColorChoice::Never),
        (true, "test --color", ColorChoice::Always),
        (true, "test --no-color", ColorChoice::Never),
        (false, "test --color", ColorChoice::Always),
        (false, "test --no-color", ColorChoice::Never),
        (true, "test --no-color --color", ColorChoice::Always),
        (true, "test --color --no-color", ColorChoice::Never),
        (false, "test --no-color --color", ColorChoice::Always),
        (false, "test --color --no-color", ColorChoice::Never),
        (true, "test --color --no-color --color", ColorChoice::Always),
        (true, "test --no-color --color --no-color", ColorChoice::Never),
        (false, "test --color --no-color --color", ColorChoice::Always),
        (false, "test --no-color --color --no-color", ColorChoice::Never),
    ];
    for (context_default, args, expected) in cases {
        let (color, no_color) = flags(args);
        assert_eq!(resolve_color_choice(context_default, color, no_color), expected, "{args}");
    }
}

#[test]
fn resolve_color_choice_without_color_args_registered() {
    assert_eq!(resolve_color_choice(true, None, None), ColorChoice::Never);
    assert_eq!(resolve_color_choice(false, None, None), ColorChoice::Never);
}

#[test]
fn io_settings_from_format_and_version() {
    assert_eq!(
        command_io_settings(None, None, true, Some(false), Some(false)),
        Ok(IoSettings {
            format: Format::Text(TextLayout::Pretty),
            encoding: Encoding::Text10,
            color: ColorChoice::Auto
        })
    );
    assert_eq!(
        command_io_settings(Some("binary"), Some("1.1"), true, Some(true), Some(false)),
        Ok(IoSettings { format: Format::Binary, encoding: Encoding::Binary11, color: ColorChoice::Never })
    );
    assert_eq!(
        command_io_settings(Some("lines"), Some("1.0"), false, None, None),
        Ok(IoSettings {
            format: Format::Text(TextLayout::Lines),
            encoding: Encoding::Text10,
            color: ColorChoice::Never
        })
    );
    assert_eq!(
        command_io_settings(Some("yaml"), None, true, None, None),
        Err("unsupported format 'yaml'".to_string())
    );
    assert_eq!(
        command_io_settings(Some("text"), Some("2.0"), true, None, None),
        Err("unrecognized Ion version '2.0'".to_string())
    );
}

#[test]
fn output_targets() {
    assert_eq!(output_target(true, ColorChoice::Always, true), OutputTarget::File);
    assert_eq!(output_target(false, ColorChoice::Never, true), OutputTarget::StdOut);
    assert_eq!(output_target(false, ColorChoice::Auto, false), OutputTarget::StdOut);
    assert_eq!(output_target(false, ColorChoice::Auto, true), OutputTarget::HighlightedOut);
    assert_eq!(output_target(false, ColorChoice::Always, false), OutputTarget::HighlightedOut);
    assert!(auto_decompression_enabled(None));
    assert!(auto_decompression_enabled(Some(false)));
    assert!(!auto_decompression_enabled(Some(true)));
}

#[test]
fn eq_input_modes() {
    assert_eq!(read_input_modes(0, 0, 0, None, None, None), Ok((InputType::Auto, InputType::Auto)));
    assert_eq!(read_input_modes(1, 0, 0, Some(2), None, None), Ok((InputType::File, InputType::Auto)));
    assert_eq!(read_input_modes(0, 0, 2, None, None, Some(1)), Ok((InputType::Hex, InputType::Hex)));
    assert_eq!(
        read_input_modes(1, 1, 0, Some(4), Some(2), None),
        Ok((InputType::Ion, InputType::File))
    );
    assert_eq!(
        read_input_modes(0, 1, 1, None, Some(1), Some(3)),
        Ok((InputType::Ion, InputType::Hex))
    );
    assert_eq!(
        read_input_modes(1, 1, 1, Some(1), Some(2), Some(3)),
        Err("A maximum of two input modes can be specified.".to_string())
    );
}

#[test]
fn validation_reporting() {
    assert_eq!(select_result_writer(true, true), ResultWriter::Report);
    assert_eq!(select_result_writer(false, true), ResultWriter::Quiet);
    assert_eq!(select_result_writer(false, false), ResultWriter::Ion);
    assert_eq!(validation_report_line("a.ion", &ResultKind::Valid, false), "a.ion ... ok\n");
    assert_eq!(
        validation_report_line("a.ion", &ResultKind::ValidationFailed, true),
        "a.ion ... \x1B[0;31mFAILED\x1B[0m\n"
    );
    assert_eq!(
        validation_report_line("b.ion", &ResultKind::InputError("bad".to_string()), false),
        "b.ion ... ERROR: bad\n"
    );
    assert!(exits_with_error(false, true));
    assert!(!exits_with_error(true, true));
    assert!(!exits_with_error(false, false));
    assert_eq!(empty_schema_version(Some("1.0")), "$ion_schema_1_0");
    assert_eq!(empty_schema_version(Some("2.0")), "$ion_schema_2_0");
    assert_eq!(empty_schema_version(None), "$ion_schema_2_0");
}
