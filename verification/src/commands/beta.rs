//! The commands of the `beta` namespace, whose interfaces are not yet stable.
use vstd::prelude::*;

use crate::commands::IonCliCommand;

verus! {

/// The namespace of the commands whose interfaces are not yet stable.
pub struct BetaNamespace;

impl IonCliCommand for BetaNamespace {
    fn is_stable(&self) -> (r: bool)
        ensures
            r == true,
    {
        true
    }

    fn is_porcelain(&self) -> (r: bool)
        ensures
            r == false,
    {
        false
    }

    fn name(&self) -> (r: &'static str)
        ensures
            r@ == "beta"@,
    {
        "beta"
    }

    fn about(&self) -> (r: &'static str)
        ensures
            r@ == "The 'beta' command is a namespace for commands whose interfaces are not yet stable."@,
    {
        "The 'beta' command is a namespace for commands whose interfaces are not yet stable."
    }
}

/// The namespace of the commands for statistical analysis of Ion streams.
pub struct AnalyzeNamespace;

impl IonCliCommand for AnalyzeNamespace {
    fn is_stable(&self) -> (r: bool)
        ensures
            r == true,
    {
        true
    }

    fn is_porcelain(&self) -> (r: bool)
        ensures
            r == false,
    {
        false
    }

    fn name(&self) -> (r: &'static str)
        ensures
            r@ == "analyze"@,
    {
        "analyze"
    }

    fn about(&self) -> (r: &'static str)
        ensures
            r@ == "The 'analyze' command is a namespace for commands used for Ion stream statistical analysis."@,
    {
        "The 'analyze' command is a namespace for commands used for Ion stream statistical analysis."
    }
}

/// Prints the maximum depth of the input.
pub struct DepthCommand;

impl IonCliCommand for DepthCommand {
    fn is_stable(&self) -> (r: bool)
        ensures
            r == false,
    {
        false
    }

    fn is_porcelain(&self) -> (r: bool)
        ensures
            r == true,
    {
        true
    }

    fn name(&self) -> (r: &'static str)
        ensures
            r@ == "depth"@,
    {
        "depth"
    }

    fn about(&self) -> (r: &'static str)
        ensures
            r@ == "Prints the maximum depth of the input ion stream."@,
    {
        "Prints the maximum depth of the input ion stream."
    }
}

/// Prints size statistics of the top-level values of the input.
pub struct SizeCommand;

impl IonCliCommand for SizeCommand {
    fn is_stable(&self) -> (r: bool)
        ensures
            r == false,
    {
        false
    }

    fn is_porcelain(&self) -> (r: bool)
        ensures
            r == true,
    {
        true
    }

    fn name(&self) -> (r: &'static str)
        ensures
            r@ == "size"@,
    {
        "size"
    }

    fn about(&self) -> (r: &'static str)
        ensures
            r@ == "Prints the overall min, max and mean size of top-level values and plot the size distribution of the input stream."@,
    {
        "Prints the overall min, max and mean size of top-level values and plot the size distribution of the input stream."
    }
}

/// The namespace of the commands that convert other formats to Ion.
pub struct FromNamespace;

impl IonCliCommand for FromNamespace {
    fn is_stable(&self) -> (r: bool)
        ensures
            r == true,
    {
        true
    }

    fn is_porcelain(&self) -> (r: bool)
        ensures
            r == false,
    {
        false
    }

    fn name(&self) -> (r: &'static str)
        ensures
            r@ == "from"@,
    {
        "from"
    }

    fn about(&self) -> (r: &'static str)
        ensures
            r@ == "'from' is a namespace for commands that convert other data formats to Ion."@,
    {
        "'from' is a namespace for commands that convert other data formats to Ion."
    }
}

/// Converts JSON to Ion.
pub struct FromJsonCommand;

impl IonCliCommand for FromJsonCommand {
    fn is_stable(&self) -> (r: bool)
        ensures
            r == false,
    {
        false
    }

    fn is_porcelain(&self) -> (r: bool)
        ensures
            r == true,
    {
        true
    }

    fn name(&self) -> (r: &'static str)
        ensures
            r@ == "json"@,
    {
        "json"
    }

    fn about(&self) -> (r: &'static str)
        ensures
            r@ == "Converts data from JSON to Ion."@,
    {
        "Converts data from JSON to Ion."
    }
}

/// The namespace of the commands that convert Ion to other formats.
pub struct ToNamespace;

impl IonCliCommand for ToNamespace {
    fn is_stable(&self) -> (r: bool)
        ensures
            r == true,
    {
        true
    }

    fn is_porcelain(&self) -> (r: bool)
        ensures
            r == false,
    {
        false
    }

    fn name(&self) -> (r: &'static str)
        ensures
            r@ == "to"@,
    {
        "to"
    }

    fn about(&self) -> (r: &'static str)
        ensures
            r@ == "'to' is a namespace for commands that convert Ion to another data format."@,
    {
        "'to' is a namespace for commands that convert Ion to another data format."
    }
}

/// Generates code from schema files.
pub struct GenerateCommand;

impl IonCliCommand for GenerateCommand {
    fn is_stable(&self) -> (r: bool)
        ensures
            r == false,
    {
        false
    }

    fn is_porcelain(&self) -> (r: bool)
        ensures
            r == true,
    {
        true
    }

    fn name(&self) -> (r: &'static str)
        ensures
            r@ == "generate"@,
    {
        "generate"
    }

    fn about(&self) -> (r: &'static str)
        ensures
            r@ == "Generates code using given schema file."@,
    {
        "Generates code using given schema file."
    }
}

/// Prints the first top-level values of the input.
pub struct HeadCommand;

impl IonCliCommand for HeadCommand {
    fn is_stable(&self) -> (r: bool)
        ensures
            r == false,
    {
        false
    }

    fn is_porcelain(&self) -> (r: bool)
        ensures
            r == true,
    {
        true
    }

    fn name(&self) -> (r: &'static str)
        ensures
            r@ == "head"@,
    {
        "head"
    }

    fn about(&self) -> (r: &'static str)
        ensures
            r@ == "Prints the specified number of top-level values in the input stream."@,
    {
        "Prints the specified number of top-level values in the input stream."
    }
}

/// The namespace of the commands of the schema sandbox.
pub struct SchemaNamespace;

impl IonCliCommand for SchemaNamespace {
    fn is_stable(&self) -> (r: bool)
        ensures
            r == true,
    {
        true
    }

    fn is_porcelain(&self) -> (r: bool)
        ensures
            r == false,
    {
        false
    }

    fn name(&self) -> (r: &'static str)
        ensures
            r@ == "schema"@,
    {
        "schema"
    }

    fn about(&self) -> (r: &'static str)
        ensures
            r@ == "The 'schema' command is a namespace for commands that are related to schema sandbox"@,
    {
        "The 'schema' command is a namespace for commands that are related to schema sandbox"
    }
}

/// The namespace of the commands that operate on symbol tables.
pub struct SymtabNamespace;

impl IonCliCommand for SymtabNamespace {
    fn is_stable(&self) -> (r: bool)
        ensures
            r == true,
    {
        true
    }

    fn is_porcelain(&self) -> (r: bool)
        ensures
            r == false,
    {
        false
    }

    fn name(&self) -> (r: &'static str)
        ensures
            r@ == "symtab"@,
    {
        "symtab"
    }

    fn about(&self) -> (r: &'static str)
        ensures
            r@ == "'symtab' is a namespace for commands that operate on symbol tables"@,
    {
        "'symtab' is a namespace for commands that operate on symbol tables"
    }
}

/// Prints the binary representation of an Ion encoding primitive.
pub struct PrimitiveCommand;

impl IonCliCommand for PrimitiveCommand {
    fn name(&self) -> (r: &'static str)
        ensures
            r@ == "primitive"@,
    {
        "primitive"
    }

    fn about(&self) -> (r: &'static str)
        ensures
            r@ == "Prints the binary representation of an Ion encoding primitive."@,
    {
        "Prints the binary representation of an Ion encoding primitive."
    }
}

} // verus!
