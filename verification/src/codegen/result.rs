//! Errors of code generation.
use vstd::prelude::*;

use crate::text::copy_string;

verus! {

/// Declares `ion_schema::result::IonSchemaError`, which loading a schema may report.
#[verifier::external_type_specification]
#[verifier::external_body]
pub struct ExIonSchemaError(ion_schema::result::IonSchemaError);

/// An error found during code generation.
#[derive(Debug)]
pub enum CodeGenError {
    /// Loading or reading a schema failed.
    IonSchemaError { source: ion_schema::result::IonSchemaError },
    /// Reading or writing a file failed.
    IoError { source: std::io::Error },
    /// The type definitions cannot be mapped to a data model.
    InvalidDataModel { description: String },
    /// A part of the data model was built without one of its required parts.
    DataModelBuilderError { description: String },
}

/// The kind and description of a [`CodeGenError`].
pub enum CodeGenErrorSpec {
    IonSchemaError,
    IoError,
    InvalidDataModel(Seq<char>),
    DataModelBuilderError(Seq<char>),
}

impl View for CodeGenError {
    type V = CodeGenErrorSpec;

    open spec fn view(&self) -> CodeGenErrorSpec {
        match self {
            CodeGenError::IonSchemaError { .. } => CodeGenErrorSpec::IonSchemaError,
            CodeGenError::IoError { .. } => CodeGenErrorSpec::IoError,
            CodeGenError::InvalidDataModel { description } => CodeGenErrorSpec::InvalidDataModel(description@),
            CodeGenError::DataModelBuilderError { description } => CodeGenErrorSpec::DataModelBuilderError(description@),
        }
    }
}

/// Creates a `CodeGenError::InvalidDataModel` with the provided description text.
pub fn invalid_data_model(description: &str) -> (r: CodeGenError)
    ensures
        r@ == CodeGenErrorSpec::InvalidDataModel(description@),
{
    CodeGenError::InvalidDataModel { description: String::from_str(description) }
}

/// A convenience method for creating a `CodeGenError::InvalidDataModel` with the provided
/// description text.
pub fn invalid_abstract_data_type_raw_error(description: &str) -> (r: CodeGenError)
    ensures
        r@ == CodeGenErrorSpec::InvalidDataModel(description@),
{
    invalid_data_model(description)
}

/// A convenience method for creating an `Err` holding a `CodeGenError::InvalidDataModel` with
/// the provided description text.
pub fn invalid_abstract_data_type_error<T>(description: &str) -> (r: Result<T, CodeGenError>)
    ensures
        r matches Err(e) && e@ == CodeGenErrorSpec::InvalidDataModel(description@),
{
    Err(invalid_data_model(description))
}

/// The error of a data model builder: a required part was not set.
#[derive(Debug, PartialEq)]
pub enum BuilderError {
    /// The named field was not initialized.
    UninitializedField(String),
}

/// The description of an uninitialized field, as builders report it.
pub open spec fn uninitialized_field_text(field: Seq<char>) -> Seq<char> {
    "`"@ + field + "` must be initialized"@
}

impl BuilderError {
    /// The description of this error.
    pub fn description(&self) -> (r: String)
        ensures
            match self {
                BuilderError::UninitializedField(f) => r@ == uninitialized_field_text(f@),
            },
    {
        match self {
            BuilderError::UninitializedField(f) => {
                let mut s = String::from_str("`");
                s.append(f.as_str());
                s.append("` must be initialized");
                s
            },
        }
    }

    /// The code generation error that reports this builder error.
    pub fn into_code_gen_error(self) -> (r: CodeGenError)
        ensures
            match self {
                BuilderError::UninitializedField(f) => r@ == CodeGenErrorSpec::DataModelBuilderError(
                    uninitialized_field_text(f@),
                ),
            },
    {
        CodeGenError::DataModelBuilderError { description: self.description() }
    }
}

} // verus!
