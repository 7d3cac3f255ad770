//! The failures of a generation pass.

use vstd::prelude::*;
use vstd::string::*;

verus! {

/// Why an annotation could not be turned into methods.
#[derive(Debug, Clone, Copy, PartialEq, Eq, Structural)]
pub enum GenerationError {
    /// The key of a `key = value` argument is not one the annotation knows.
    UnknownArgumentKey,
    /// The value of a `key = value` argument has the wrong shape for its key.
    MalformedArgumentValue,
    /// The argument is no keyword, flag or `key = value` pair that the
    /// annotation accepts.
    UnrecognizedToken,
    /// A field without a name met an operation that needs the name.
    UnsupportedFieldShape,
}

/// The failure of one annotation: what went wrong, and at which of its
/// arguments. `argument` is `None` where no argument is at fault.
#[derive(Debug, Clone, Copy, PartialEq, Eq, Structural)]
pub struct AnnotationFailure {
    pub error: GenerationError,
    pub argument: Option<usize>,
}

/// The place at which a pass failed: the `annotation`-th annotation of the
/// record itself when `field` is `None`, of the record's `field`-th field
/// otherwise, and within it the `argument`-th argument, or the annotation as
/// a whole when `argument` is `None`.
#[derive(Debug, Clone, Copy, PartialEq, Eq, Structural)]
pub struct Site {
    pub field: Option<usize>,
    pub annotation: usize,
    pub argument: Option<usize>,
}

/// A failed pass: what went wrong, and where.
#[derive(Debug, Clone, Copy, PartialEq, Eq, Structural)]
pub struct Failure {
    pub error: GenerationError,
    pub site: Site,
}

impl GenerationError {
    /// The text of [`GenerationError::message`].
    pub open spec fn spec_message(self) -> Seq<char> {
        match self {
            GenerationError::UnknownArgumentKey => "unknown argument name"@,
            GenerationError::MalformedArgumentValue => "the argument's value has the wrong shape"@,
            GenerationError::UnrecognizedToken => "could not parse the argument"@,
            GenerationError::UnsupportedFieldShape => "expected a named field"@,
        }
    }

    /// A sentence for the user about this kind of failure.
    pub fn message(&self) -> (text: String)
        ensures
            text@ == self.spec_message(),
    {
        match self {
            GenerationError::UnknownArgumentKey => String::from_str("unknown argument name"),
            GenerationError::MalformedArgumentValue => String::from_str(
                "the argument's value has the wrong shape",
            ),
            GenerationError::UnrecognizedToken => String::from_str("could not parse the argument"),
            GenerationError::UnsupportedFieldShape => String::from_str("expected a named field"),
        }
    }
}

} // verus!
