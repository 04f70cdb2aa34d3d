//! The commands of the Ion CLI and what each declares about itself.
use vstd::prelude::*;

use crate::commands::IonCliCommand;

verus! {

/// Prints Ion input files in the requested format.
pub struct CatCommand;

impl IonCliCommand for CatCommand {
    fn is_stable(&self) -> (r: bool)
        ensures
            r == true,
    {
        true
    }

    fn is_porcelain(&self) -> (r: bool)
        ensures
            r == false,
    {
        false
    }

    fn name(&self) -> (r: &'static str)
        ensures
            r@ == "cat"@,
    {
        "cat"
    }

    fn about(&self) -> (r: &'static str)
        ensures
            r@ == "Prints all Ion input files to the specified output in the requested format."@,
    {
        "Prints all Ion input files to the specified output in the requested format."
    }
}

/// Counts the top-level values of the input.
pub struct CountCommand;

impl IonCliCommand for CountCommand {
    fn is_stable(&self) -> (r: bool)
        ensures
            r == false,
    {
        false
    }

    fn is_porcelain(&self) -> (r: bool)
        ensures
            r == true,
    {
        true
    }

    fn name(&self) -> (r: &'static str)
        ensures
            r@ == "count"@,
    {
        "count"
    }

    fn about(&self) -> (r: &'static str)
        ensures
            r@ == "Prints the number of top-level values found in the input stream."@,
    {
        "Prints the number of top-level values found in the input stream."
    }
}

/// The former name of the `cat` command, kept for existing shell scripts.
pub struct DumpCommand;

impl IonCliCommand for DumpCommand {
    fn is_stable(&self) -> (r: bool)
        ensures
            r == false,
    {
        false
    }

    fn is_porcelain(&self) -> (r: bool)
        ensures
            r == true,
    {
        true
    }

    fn name(&self) -> (r: &'static str)
        ensures
            r@ == "dump"@,
    {
        "dump"
    }

    fn about(&self) -> (r: &'static str)
        ensures
            r@ == "Deprecated alias for the `cat` command."@,
    {
        "Deprecated alias for the `cat` command."
    }
}

/// Compares two Ion streams.
pub struct EqCommand;

impl IonCliCommand for EqCommand {
    fn is_stable(&self) -> (r: bool)
        ensures
            r == false,
    {
        false
    }

    fn is_porcelain(&self) -> (r: bool)
        ensures
            r == false,
    {
        false
    }

    fn name(&self) -> (r: &'static str)
        ensures
            r@ == "eq"@,
    {
        "eq"
    }

    fn about(&self) -> (r: &'static str)
        ensures
            r@ == "Compares two Ion streams"@,
    {
        "Compares two Ion streams"
    }
}

/// Converts JSON to Ion.
pub struct FromJsonCommand;

impl IonCliCommand for FromJsonCommand {
    fn is_stable(&self) -> (r: bool)
        ensures
            r == false,
    {
        false
    }

    fn is_porcelain(&self) -> (r: bool)
        ensures
            r == false,
    {
        false
    }

    fn name(&self) -> (r: &'static str)
        ensures
            r@ == "json"@,
    {
        "json"
    }

    fn about(&self) -> (r: &'static str)
        ensures
            r@ == "Converts data from JSON to Ion."@,
    {
        "Converts data from JSON to Ion."
    }
}

/// The namespace of the commands that convert other formats to Ion.
pub struct FromNamespace;

impl IonCliCommand for FromNamespace {
    fn is_stable(&self) -> (r: bool)
        ensures
            r == true,
    {
        true
    }

    fn is_porcelain(&self) -> (r: bool)
        ensures
            r == false,
    {
        false
    }

    fn name(&self) -> (r: &'static str)
        ensures
            r@ == "from"@,
    {
        "from"
    }

    fn about(&self) -> (r: &'static str)
        ensures
            r@ == "'from' is a namespace for commands that convert other data formats to Ion."@,
    {
        "'from' is a namespace for commands that convert other data formats to Ion."
    }
}

/// Generates code from schema files.
pub struct GenerateCommand;

impl IonCliCommand for GenerateCommand {
    fn is_stable(&self) -> (r: bool)
        ensures
            r == false,
    {
        false
    }

    fn is_porcelain(&self) -> (r: bool)
        ensures
            r == false,
    {
        false
    }

    fn name(&self) -> (r: &'static str)
        ensures
            r@ == "generate"@,
    {
        "generate"
    }

    fn about(&self) -> (r: &'static str)
        ensures
            r@ == "Generates code using given schema file."@,
    {
        "Generates code using given schema file."
    }
}

/// Hashes Ion values with the Ion Hash algorithm.
pub struct HashCommand;

impl IonCliCommand for HashCommand {
    fn is_stable(&self) -> (r: bool)
        ensures
            r == false,
    {
        false
    }

    fn is_porcelain(&self) -> (r: bool)
        ensures
            r == false,
    {
        false
    }

    fn name(&self) -> (r: &'static str)
        ensures
            r@ == "hash"@,
    {
        "hash"
    }

    fn about(&self) -> (r: &'static str)
        ensures
            r@ == "Calculates a hash of Ion values using the Ion Hash algorithm."@,
    {
        "Calculates a hash of Ion values using the Ion Hash algorithm."
    }
}

/// Prints the first top-level values of the input.
pub struct HeadCommand;

impl IonCliCommand for HeadCommand {
    fn is_stable(&self) -> (r: bool)
        ensures
            r == true,
    {
        true
    }

    fn is_porcelain(&self) -> (r: bool)
        ensures
            r == false,
    {
        false
    }

    fn name(&self) -> (r: &'static str)
        ensures
            r@ == "head"@,
    {
        "head"
    }

    fn about(&self) -> (r: &'static str)
        ensures
            r@ == "Prints the specified number of top-level values in the input stream."@,
    {
        "Prints the specified number of top-level values in the input stream."
    }
}

/// Shows binary Ion next to its text.
pub struct InspectCommand;

impl IonCliCommand for InspectCommand {
    fn is_stable(&self) -> (r: bool)
        ensures
            r == true,
    {
        true
    }

    fn is_porcelain(&self) -> (r: bool)
        ensures
            r == true,
    {
        true
    }

    fn name(&self) -> (r: &'static str)
        ensures
            r@ == "inspect"@,
    {
        "inspect"
    }

    fn about(&self) -> (r: &'static str)
        ensures
            r@ == "Displays hex-encoded binary Ion alongside its equivalent text Ion.\nIts output prioritizes human readability and is likely to change\nbetween versions. Stable output for programmatic use cases is a\nnon-goal."@,
    {
        "Displays hex-encoded binary Ion alongside its equivalent text Ion.\nIts output prioritizes human readability and is likely to change\nbetween versions. Stable output for programmatic use cases is a\nnon-goal."
    }
}

/// Runs jq filters over Ion streams.
pub struct JqCommand;

impl IonCliCommand for JqCommand {
    fn is_stable(&self) -> (r: bool)
        ensures
            r == false,
    {
        false
    }

    fn is_porcelain(&self) -> (r: bool)
        ensures
            r == false,
    {
        false
    }

    fn name(&self) -> (r: &'static str)
        ensures
            r@ == "jq"@,
    {
        "jq"
    }

    fn about(&self) -> (r: &'static str)
        ensures
            r@ == "A version of `jq` extended to support Ion streams. (See: jqlang.org for details.)"@,
    {
        "A version of `jq` extended to support Ion streams. (See: jqlang.org for details.)"
    }
}

/// Prints statistics about an Ion stream.
pub struct StatsCommand;

impl IonCliCommand for StatsCommand {
    fn is_stable(&self) -> (r: bool)
        ensures
            r == false,
    {
        false
    }

    fn is_porcelain(&self) -> (r: bool)
        ensures
            r == false,
    {
        false
    }

    fn name(&self) -> (r: &'static str)
        ensures
            r@ == "stats"@,
    {
        "stats"
    }

    fn about(&self) -> (r: &'static str)
        ensures
            r@ == "Print statistics about an Ion stream"@,
    {
        "Print statistics about an Ion stream"
    }
}

/// A hidden command that points to where issues can be filed.
pub struct SucksCommand;

impl IonCliCommand for SucksCommand {
    fn is_stable(&self) -> (r: bool)
        ensures
            r == true,
    {
        true
    }

    fn is_porcelain(&self) -> (r: bool)
        ensures
            r == true,
    {
        true
    }

    fn name(&self) -> (r: &'static str)
        ensures
            r@ == "sucks"@,
    {
        "sucks"
    }

    fn about(&self) -> (r: &'static str)
        ensures
            r@ == ""@,
    {
        ""
    }
}

/// The namespace of the commands related to Ion Schema.
pub struct SchemaNamespace;

impl IonCliCommand for SchemaNamespace {
    fn is_stable(&self) -> (r: bool)
        ensures
            r == true,
    {
        true
    }

    fn is_porcelain(&self) -> (r: bool)
        ensures
            r == false,
    {
        false
    }

    fn name(&self) -> (r: &'static str)
        ensures
            r@ == "schema"@,
    {
        "schema"
    }

    fn about(&self) -> (r: &'static str)
        ensures
            r@ == "The 'schema' command is a namespace for commands that are related to Ion Schema."@,
    {
        "The 'schema' command is a namespace for commands that are related to Ion Schema."
    }
}

/// Loads a schema and checks it for problems.
pub struct CheckCommand;

impl IonCliCommand for CheckCommand {
    fn is_stable(&self) -> (r: bool)
        ensures
            r == false,
    {
        false
    }

    fn is_porcelain(&self) -> (r: bool)
        ensures
            r == true,
    {
        true
    }

    fn name(&self) -> (r: &'static str)
        ensures
            r@ == "check"@,
    {
        "check"
    }

    fn about(&self) -> (r: &'static str)
        ensures
            r@ == "Loads a schema and checks it for problems."@,
    {
        "Loads a schema and checks it for problems."
    }
}

/// Validates an Ion value against an Ion Schema type.
pub struct ValidateCommand;

impl IonCliCommand for ValidateCommand {
    fn is_stable(&self) -> (r: bool)
        ensures
            r == false,
    {
        false
    }

    fn is_porcelain(&self) -> (r: bool)
        ensures
            r == true,
    {
        true
    }

    fn name(&self) -> (r: &'static str)
        ensures
            r@ == "validate"@,
    {
        "validate"
    }

    fn about(&self) -> (r: &'static str)
        ensures
            r@ == "Validates an Ion value based on a given Ion Schema type."@,
    {
        "Validates an Ion value based on a given Ion Schema type."
    }
}

} // verus!
