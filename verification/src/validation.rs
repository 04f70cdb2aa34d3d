//! The `schema validate` command's choices: how it reports each result, and when it fails.
use vstd::prelude::*;

use crate::ansi_codes::{GREEN, NO_STYLE, RED};
use crate::text::str_equals;

verus! {


/// How validation results are written.
#[derive(Debug, PartialEq, Eq, Clone, Copy, Structural)]
pub enum ResultWriter {
    /// Nothing is written.
    Quiet,
    /// Each result is written as Ion.
    Ion,
    /// Each result is written as a line of a human-friendly report.
    Report,
}

/// The writer that the `--report` and `--quiet` flags select: a report wins over quiet, and
/// results are written as Ion otherwise.
pub fn select_result_writer(report: bool, quiet: bool) -> (r: ResultWriter)
    ensures
        r == if report {
            ResultWriter::Report
        } else if quiet {
            ResultWriter::Quiet
        } else {
            ResultWriter::Ion
        },
{
    if report {
        ResultWriter::Report
    } else if quiet {
        ResultWriter::Quiet
    } else {
        ResultWriter::Ion
    }
}

/// The result of validating one input.
#[derive(Debug, PartialEq)]
pub enum ResultKind {
    Valid,
    ValidationFailed,
    /// The input could not be read; with the error's message.
    InputError(String),
}

/// The status that a report line shows for a result.
pub open spec fn status_text(result: ResultKind) -> Seq<char> {
    match result {
        ResultKind::Valid => "ok"@,
        ResultKind::ValidationFailed => "FAILED"@,
        ResultKind::InputError(m) => "ERROR: "@ + m@,
    }
}

/// A report line: `<input name> ... <status>`, the status in green for success and red
/// otherwise when the output supports color.
pub open spec fn report_line_text(input_name: Seq<char>, result: ResultKind, supports_color: bool) -> Seq<char> {
    if supports_color {
        input_name + " ... "@ + (if result is Valid {
            GREEN@
        } else {
            RED@
        }) + status_text(result) + NO_STYLE@ + "\n"@
    } else {
        input_name + " ... "@ + status_text(result) + "\n"@
    }
}

/// Writes a validation result in the report style.
pub fn validation_report_line(input_name: &str, result: &ResultKind, supports_color: bool) -> (r: String)
    ensures
        r@ == report_line_text(input_name@, *result, supports_color),
{
    let mut status = String::new();
    let color = match result {
        ResultKind::Valid => {
            status.append("ok");
            GREEN
        },
        ResultKind::ValidationFailed => {
            status.append("FAILED");
            RED
        },
        ResultKind::InputError(message) => {
            status.append("ERROR: ");
            status.append(message.as_str());
            RED
        },
    };
    let mut line = String::from_str(input_name);
    line.append(" ... ");
    if supports_color {
        line.append(color);
    }
    line.append(status.as_str());
    if supports_color {
        line.append(NO_STYLE);
    }
    line.append("\n");
    line
}

/// A report line shows the same status with and without color: `ok` for a valid input, `FAILED`
/// for one that fails validation and `ERROR: ` with the message for one that could not be read;
/// with color, that status is only wrapped in green (for a valid input) or red and a reset.
pub proof fn law_report_status_ignores_color(input_name: Seq<char>, result: ResultKind)
    ensures
        ({
            let status = match result {
                ResultKind::Valid => "ok"@,
                ResultKind::ValidationFailed => "FAILED"@,
                ResultKind::InputError(m) => "ERROR: "@ + m@,
            };
            let color = if result is Valid {
                GREEN@
            } else {
                RED@
            };
            &&& report_line_text(input_name, result, false) == input_name + " ... "@ + status + "\n"@
            &&& report_line_text(input_name, result, true) == input_name + " ... "@ + color + status + NO_STYLE@
                + "\n"@
        }),
{
}

/// Whether the command ends with an error: some input was not valid and `--error-on-invalid`
/// was given.
pub fn exits_with_error(all_valid: bool, error_on_invalid: bool) -> (r: bool)
    ensures
        r == (!all_valid && error_on_invalid),
{
    !all_valid && error_on_invalid
}

/// The empty schema for the Ion Schema version named by `--empty`: version 1.0 on request, 2.0
/// otherwise.
pub fn empty_schema_version(version: Option<&str>) -> (r: &'static str)
    ensures
        r@ == match version {
            Some(v) => if v@ == "1.0"@ {
                "$ion_schema_1_0"@
            } else {
                "$ion_schema_2_0"@
            },
            None => "$ion_schema_2_0"@,
        },
{
    match version {
        Some(v) => {
            if str_equals(v, "1.0") {
                "$ion_schema_1_0"
            } else {
                "$ion_schema_2_0"
            }
        },
        None => "$ion_schema_2_0",
    }
}


/// The schema document that defines a type named `type_symbol` (written as an Ion symbol) by
/// the inline definition `type_definition`, in the empty schema of version `version`: what
/// `schema validate` uses when the type it is given is not a type of the empty schema.
pub open spec fn inline_type_schema_text(version: Seq<char>, type_symbol: Seq<char>, type_definition: Seq<char>) -> Seq<char> {
    "\n                    "@ + version + "\n                    type::{\n                      name: "@ + type_symbol + ",\n                      type: "@ + type_definition
        + "\n                    }\n                    "@
}

/// Writes the schema document that defines a type by an inline definition.
pub fn inline_type_schema(version: &str, type_symbol: &str, type_definition: &str) -> (r: String)
    ensures
        r@ == inline_type_schema_text(version@, type_symbol@, type_definition@),
{
    let mut s = String::from_str("\n                    ");
    s.append(version);
    s.append("\n                    type::{\n                      name: ");
    s.append(type_symbol);
    s.append(",\n                      type: ");
    s.append(type_definition);
    s.append("\n                    }\n                    ");
    s
}

} // verus!
