//! The choices a command makes from its arguments about its input and output.
use vstd::prelude::*;

use crate::text::str_equals;

verus! {

/// How text Ion is laid out.
#[derive(Debug, PartialEq, Eq, Clone, Copy, Structural)]
pub enum TextLayout {
    Pretty,
    Compact,
    Lines,
}

/// The output format: text Ion in a layout, or binary Ion.
#[derive(Debug, PartialEq, Eq, Clone, Copy, Structural)]
pub enum Format {
    Text(TextLayout),
    Binary,
}

/// The Ion encoding of the output.
#[derive(Debug, PartialEq, Eq, Clone, Copy, Structural)]
pub enum Encoding {
    Text10,
    Binary10,
    Text11,
    Binary11,
}

/// Whether output is colored.
#[derive(Debug, PartialEq, Eq, Clone, Copy, Structural)]
pub enum ColorChoice {
    Always,
    Auto,
    Never,
}

/// The settings of a command's input and output.
#[derive(Debug, PartialEq, Eq, Clone, Copy, Structural)]
pub struct IoSettings {
    pub format: Format,
    pub encoding: Encoding,
    pub color: ColorChoice,
}

/// The format that the `--format` value `f` names, if any.
pub open spec fn format_named(f: Seq<char>) -> Option<Format> {
    if f == "pretty"@ {
        Some(Format::Text(TextLayout::Pretty))
    } else if f == "text"@ {
        Some(Format::Text(TextLayout::Compact))
    } else if f == "lines"@ {
        Some(Format::Text(TextLayout::Lines))
    } else if f == "binary"@ {
        Some(Format::Binary)
    } else {
        None
    }
}

/// The encoding for the Ion version `v` in the format `f`, if the version is known.
pub open spec fn encoding_of(v: Seq<char>, f: Format) -> Option<Encoding> {
    if v == "1.0"@ {
        Some(if f is Binary { Encoding::Binary10 } else { Encoding::Text10 })
    } else if v == "1.1"@ {
        Some(if f is Binary { Encoding::Binary11 } else { Encoding::Text11 })
    } else {
        None
    }
}

/// The color choice from the `--color` and `--no-color` flags (`None` where the command does not
/// register them) and the default of the context.
pub open spec fn color_of(context_default: bool, color: Option<bool>, no_color: Option<bool>) -> ColorChoice {
    match (color, no_color) {
        (Some(c), Some(n)) => if c {
            ColorChoice::Always
        } else if n {
            ColorChoice::Never
        } else if context_default {
            ColorChoice::Auto
        } else {
            ColorChoice::Never
        },
        _ => ColorChoice::Never,
    }
}

/// Resolves whether to color the output: `--color` wins, then `--no-color`, then the context's
/// default; a command that registers neither flag is never colored.
pub fn resolve_color_choice(context_default: bool, color: Option<bool>, no_color: Option<bool>) -> (r: ColorChoice)
    ensures
        r == color_of(context_default, color, no_color),
{
    let c = match color {
        Some(v) => v,
        None => return ColorChoice::Never,
    };
    let n = match no_color {
        Some(v) => v,
        None => return ColorChoice::Never,
    };
    if c {
        ColorChoice::Always
    } else if n {
        ColorChoice::Never
    } else if context_default {
        ColorChoice::Auto
    } else {
        ColorChoice::Never
    }
}

fn parse_format(f: &str) -> (r: Option<Format>)
    ensures
        r == format_named(f@),
{
    if str_equals(f, "pretty") {
        Some(Format::Text(TextLayout::Pretty))
    } else if str_equals(f, "text") {
        Some(Format::Text(TextLayout::Compact))
    } else if str_equals(f, "lines") {
        Some(Format::Text(TextLayout::Lines))
    } else if str_equals(f, "binary") {
        Some(Format::Binary)
    } else {
        None
    }
}

pub open spec fn unsupported_format_text(f: Seq<char>) -> Seq<char> {
    "unsupported format '"@ + f + "'"@
}

pub open spec fn unrecognized_version_text(v: Seq<char>) -> Seq<char> {
    "unrecognized Ion version '"@ + v + "'"@
}

fn quoted_error(prefix: &str, value: &str) -> (r: String)
    ensures
        r@ == prefix@ + value@ + "'"@,
{
    let mut s = String::from_str(prefix);
    s.append(value);
    s.append("'");
    s
}

/// The settings of a command's input and output from its `--format` and `--ion-version` values
/// (`pretty` and `1.0` where the command has none), whether standard output is a terminal, and
/// its color flags. Binary output is never colored.
pub fn command_io_settings(
    format: Option<&str>,
    ion_version: Option<&str>,
    stdout_is_terminal: bool,
    color: Option<bool>,
    no_color: Option<bool>,
) -> (r: Result<IoSettings, String>)
    ensures
        ({
            let f = match format {
                Some(f) => f@,
                None => "pretty"@,
            };
            let v = match ion_version {
                Some(v) => v@,
                None => "1.0"@,
            };
            match format_named(f) {
                None => r matches Err(e) && e@ == unsupported_format_text(f),
                Some(fmt) => match encoding_of(v, fmt) {
                    None => r matches Err(e) && e@ == unrecognized_version_text(v),
                    Some(enc) => r == Ok::<IoSettings, String>(
                        IoSettings {
                            format: fmt,
                            encoding: enc,
                            color: if fmt is Binary {
                                ColorChoice::Never
                            } else {
                                color_of(stdout_is_terminal, color, no_color)
                            },
                        },
                    ),
                },
            }
        }),
{
    let f = match format {
        Some(f) => f,
        None => "pretty",
    };
    let v = match ion_version {
        Some(v) => v,
        None => "1.0",
    };
    proof {
        reveal_strlit("pretty");
        reveal_strlit("1.0");
    }
    let fmt = match parse_format(f) {
        Some(fmt) => fmt,
        None => return Err(quoted_error("unsupported format '", f)),
    };
    let is_binary = matches!(fmt, Format::Binary);
    let encoding = if str_equals(v, "1.0") {
        if is_binary {
            Encoding::Binary10
        } else {
            Encoding::Text10
        }
    } else if str_equals(v, "1.1") {
        if is_binary {
            Encoding::Binary11
        } else {
            Encoding::Text11
        }
    } else {
        return Err(quoted_error("unrecognized Ion version '", v));
    };
    let color_choice = if is_binary {
        ColorChoice::Never
    } else {
        resolve_color_choice(stdout_is_terminal, color, no_color)
    };
    Ok(IoSettings { format: fmt, encoding, color: color_choice })
}

/// Where a command writes its output.
#[derive(Debug, PartialEq, Eq, Clone, Copy, Structural)]
pub enum OutputTarget {
    /// The file named by `--output`.
    File,
    /// Standard output, as is.
    StdOut,
    /// Standard output, with syntax highlighting.
    HighlightedOut,
}

/// Where output goes: to the `--output` file if one was named; otherwise to standard output,
/// highlighted unless color is off, or automatic while standard output is no terminal.
pub fn output_target(has_output_file: bool, color: ColorChoice, stdout_is_terminal: bool) -> (r: OutputTarget)
    ensures
        r == (if has_output_file {
            OutputTarget::File
        } else if color == ColorChoice::Never || (color == ColorChoice::Auto && !stdout_is_terminal) {
            OutputTarget::StdOut
        } else {
            OutputTarget::HighlightedOut
        }),
{
    if has_output_file {
        OutputTarget::File
    } else {
        match color {
            ColorChoice::Never => OutputTarget::StdOut,
            ColorChoice::Auto if !stdout_is_terminal => OutputTarget::StdOut,
            _ => OutputTarget::HighlightedOut,
        }
    }
}

/// Whether automatic decompression is on: only `--no-auto-decompress` turns it off.
pub fn auto_decompression_enabled(no_auto_decompress: Option<bool>) -> (r: bool)
    ensures
        r == match no_auto_decompress {
            Some(d) => !d,
            None => true,
        },
{
    match no_auto_decompress {
        Some(is_disabled) => !is_disabled,
        None => true,
    }
}

/// How an input of the `eq` command is read.
#[derive(Debug, PartialEq, Eq, Clone, Copy, Structural)]
pub enum InputType {
    Auto,
    File,
    Hex,
    Ion,
}

/// The input types of the two inputs of `eq` from how often each input mode flag was given
/// (`f` file, `i` Ion, `x` hex) and where the first of each stands among the arguments: flags
/// apply to the inputs in the order they were given, and inputs without a flag are detected
/// automatically. More than two flags are an error.
pub fn read_input_modes(
    f_count: u8,
    i_count: u8,
    x_count: u8,
    f_index: Option<usize>,
    i_index: Option<usize>,
    x_index: Option<usize>,
) -> (r: Result<(InputType, InputType), String>)
    requires
        f_count > 0 ==> f_index is Some,
        i_count > 0 ==> i_index is Some,
        x_count > 0 ==> x_index is Some,
    ensures
        match (f_count, i_count, x_count) {
            (0, 0, 0) => r == Ok::<(InputType, InputType), String>((InputType::Auto, InputType::Auto)),
            (1, 0, 0) => r == Ok::<(InputType, InputType), String>((InputType::File, InputType::Auto)),
            (0, 1, 0) => r == Ok::<(InputType, InputType), String>((InputType::Ion, InputType::Auto)),
            (0, 0, 1) => r == Ok::<(InputType, InputType), String>((InputType::Hex, InputType::Auto)),
            (2, 0, 0) => r == Ok::<(InputType, InputType), String>((InputType::File, InputType::File)),
            (0, 2, 0) => r == Ok::<(InputType, InputType), String>((InputType::Ion, InputType::Ion)),
            (0, 0, 2) => r == Ok::<(InputType, InputType), String>((InputType::Hex, InputType::Hex)),
            (1, 1, 0) => r == Ok::<(InputType, InputType), String>(
                if f_index->0 < i_index->0 {
                    (InputType::File, InputType::Ion)
                } else {
                    (InputType::Ion, InputType::File)
                },
            ),
            (1, 0, 1) => r == Ok::<(InputType, InputType), String>(
                if f_index->0 < x_index->0 {
                    (InputType::File, InputType::Hex)
                } else {
                    (InputType::Hex, InputType::File)
                },
            ),
            (0, 1, 1) => r == Ok::<(InputType, InputType), String>(
                if i_index->0 < x_index->0 {
                    (InputType::Ion, InputType::Hex)
                } else {
                    (InputType::Hex, InputType::Ion)
                },
            ),
            _ => r matches Err(e) && e@ == "A maximum of two input modes can be specified."@,
        },
{
    match (f_count, i_count, x_count) {
        (0, 0, 0) => Ok((InputType::Auto, InputType::Auto)),
        (1, 0, 0) => Ok((InputType::File, InputType::Auto)),
        (0, 1, 0) => Ok((InputType::Ion, InputType::Auto)),
        (0, 0, 1) => Ok((InputType::Hex, InputType::Auto)),
        (2, 0, 0) => Ok((InputType::File, InputType::File)),
        (0, 2, 0) => Ok((InputType::Ion, InputType::Ion)),
        (0, 0, 2) => Ok((InputType::Hex, InputType::Hex)),
        (1, 1, 0) => {
            if f_index.unwrap() < i_index.unwrap() {
                Ok((InputType::File, InputType::Ion))
            } else {
                Ok((InputType::Ion, InputType::File))
            }
        },
        (1, 0, 1) => {
            if f_index.unwrap() < x_index.unwrap() {
                Ok((InputType::File, InputType::Hex))
            } else {
                Ok((InputType::Hex, InputType::File))
            }
        },
        (0, 1, 1) => {
            if i_index.unwrap() < x_index.unwrap() {
                Ok((InputType::Ion, InputType::Hex))
            } else {
                Ok((InputType::Hex, InputType::Ion))
            }
        },
        _ => Err(String::from_str("A maximum of two input modes can be specified.")),
    }
}

} // verus!
