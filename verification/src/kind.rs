//! Classification of a field: how its value is requested from the call's
//! argument bundle.

use vstd::prelude::*;
use crate::text::str_is;

verus! {

/// The kind of the parameter: which retrieval strategy the generated binding
/// code uses for the field, or `Flatten` for a field that absorbs the whole
/// remaining argument bundle through a nested binding.
#[derive(Clone, Copy, Debug, PartialEq, Eq, Structural)]
pub enum ParameterKind {
    PositionalOnly,
    PositionalOrKeyword,
    KeywordOnly,
    Flatten,
}

/// The classification named by an identifier, if it is one of the four
/// recognized classification keywords.
pub open spec fn kind_of_ident(s: Seq<char>) -> Option<ParameterKind> {
    if s == "positional"@ {
        Some(ParameterKind::PositionalOnly)
    } else if s == "any"@ {
        Some(ParameterKind::PositionalOrKeyword)
    } else if s == "named"@ {
        Some(ParameterKind::KeywordOnly)
    } else if s == "flatten"@ {
        Some(ParameterKind::Flatten)
    } else {
        None
    }
}

impl ParameterKind {
    /// Decode a classification keyword; `None` for any other identifier.
    pub fn from_ident(ident: &String) -> (r: Option<ParameterKind>)
        ensures
            r == kind_of_ident(ident@),
    {
        if str_is(ident, "positional") {
            Some(ParameterKind::PositionalOnly)
        } else if str_is(ident, "any") {
            Some(ParameterKind::PositionalOrKeyword)
        } else if str_is(ident, "named") {
            Some(ParameterKind::KeywordOnly)
        } else if str_is(ident, "flatten") {
            Some(ParameterKind::Flatten)
        } else {
            None
        }
    }
}

} // verus!
