//! Generation-time diagnostics. Every malformed input is terminal: the
//! generator stops at the first diagnostic and emits nothing.

use vstd::prelude::*;

verus! {

/// A fatal diagnostic raised while decoding a struct's annotations. Each
/// variant corresponds to one malformed-input case of the annotation grammar
/// or of the input declaration's shape.
#[derive(Clone, Copy, Debug, PartialEq, Eq, Structural)]
pub enum Diagnostic {
    /// The annotation list is empty.
    NoArguments,
    /// The first annotation argument is not a recognized classification
    /// keyword.
    BadParameterKind,
    /// The annotation is not written as a list.
    NotAList,
    /// The annotation's argument list is not well-formed meta syntax.
    BadAttributeSyntax,
    /// A modifier argument appears on a flatten field.
    FlattenModifier,
    /// A modifier argument is not one the grammar knows.
    UnrecognizedModifier,
    /// A default, in either form, was already set.
    DefaultAlreadySet,
    /// The default modifier's value is not a string literal.
    ExpectedStringDefault,
    /// The default modifier's text does not parse as an expression.
    BadDefaultExpr,
    /// More than one recognized annotation sits on one field.
    MultipleAttributes,
    /// The input declaration is not a struct with named fields.
    NotNamedStruct,
}

/// Where a diagnostic arose, as indices into the declaration: the field, the
/// attribute on that field, and the argument within that attribute's list.
/// An index is `None` when the diagnostic concerns the enclosing construct,
/// so all three `None` names the declaration itself.
#[derive(Clone, Copy, Debug, PartialEq, Eq)]
pub struct Site {
    pub field: Option<usize>,
    pub attr: Option<usize>,
    pub arg: Option<usize>,
}

/// A diagnostic together with the place it arose.
#[derive(Clone, Copy, Debug, PartialEq, Eq)]
pub struct DiagnosticAt {
    pub diagnostic: Diagnostic,
    pub site: Site,
}

impl Diagnostic {
    /// The message text reported for the diagnostic.
    pub fn message(&self) -> (r: &'static str)
        ensures
            self is NoArguments ==> r@ == "There must be at least one argument to #[pyarg()]"@,
            self is BadParameterKind ==> r@ == "The first argument to #[pyarg()] must be the parameter type, either 'positional', 'any', 'named', or 'flatten'."@,
            self is NotAList ==> r@ == "pyarg must be a list, like #[pyarg(...)]"@,
            self is BadAttributeSyntax ==> r@ == "pyarg attribute is not well-formed meta syntax"@,
            self is FlattenModifier ==> r@ == "can't put additional arguments on a flatten arg"@,
            self is UnrecognizedModifier ==> r@ == "Unrecognised pyarg attribute"@,
            self is DefaultAlreadySet ==> r@ == "Default already set"@,
            self is ExpectedStringDefault ==> r@ == "Expected string value for default argument"@,
            self is BadDefaultExpr ==> r@ == "Default argument is not a valid expression"@,
            self is MultipleAttributes ==> r@ == "Multiple pyarg attributes on field"@,
            self is NotNamedStruct ==> r@ == "FromArgs input must be a struct with named fields"@,
    {
        match self {
            Diagnostic::NoArguments => "There must be at least one argument to #[pyarg()]",
            Diagnostic::BadParameterKind => "The first argument to #[pyarg()] must be the parameter type, either 'positional', 'any', 'named', or 'flatten'.",
            Diagnostic::NotAList => "pyarg must be a list, like #[pyarg(...)]",
            Diagnostic::BadAttributeSyntax => "pyarg attribute is not well-formed meta syntax",
            Diagnostic::FlattenModifier => "can't put additional arguments on a flatten arg",
            Diagnostic::UnrecognizedModifier => "Unrecognised pyarg attribute",
            Diagnostic::DefaultAlreadySet => "Default already set",
            Diagnostic::ExpectedStringDefault => "Expected string value for default argument",
            Diagnostic::BadDefaultExpr => "Default argument is not a valid expression",
            Diagnostic::MultipleAttributes => "Multiple pyarg attributes on field",
            Diagnostic::NotNamedStruct => "FromArgs input must be a struct with named fields",
        }
    }
}

} // verus!
