use vstd::prelude::*;

verus! {

/// Error returned by a fallible constructor, indicating that arguments are
/// invalid.
#[derive(Clone, Copy, Debug, PartialEq, Eq)]
pub struct ValidationError(pub &'static str);

impl ValidationError {
    /// Returns the underlying message.
    pub fn message(&self) -> (r: &'static str)
        ensures
            r == self.0,
    {
        self.0
    }
}

/// Error returned by operations.
///
/// Describes two kind of failures:
/// - passing of invalid arguments, which is user fault,
/// - result overflow, which is not user fault.
#[derive(Clone, Copy, Debug, PartialEq, Eq)]
pub enum CalculationError {
    /// An argument doesn't satisfy this specific operation's requirements.
    InvalidArgument(&'static str),
    /// Computed result fell outside the type's valid range.
    Overflow(&'static str),
}

impl CalculationError {
    /// The message carried by either kind of error.
    pub open spec fn message_spec(self) -> &'static str {
        match self {
            CalculationError::InvalidArgument(msg) => msg,
            CalculationError::Overflow(msg) => msg,
        }
    }

    /// Returns the underlying message.
    pub fn message(&self) -> (r: &'static str)
        ensures
            r == self.message_spec(),
    {
        match self {
            CalculationError::InvalidArgument(msg) => msg,
            CalculationError::Overflow(msg) => msg,
        }
    }
}

impl From<ValidationError> for CalculationError {
    /// A value that failed validation after a computation is reported as an
    /// overflow of the computed result.
    fn from(value: ValidationError) -> (r: Self) {
        CalculationError::Overflow(value.0)
    }
}

impl vstd::std_specs::convert::FromSpecImpl<ValidationError> for CalculationError {
    open spec fn obeys_from_spec() -> bool {
        true
    }

    open spec fn from_spec(v: ValidationError) -> Self {
        CalculationError::Overflow(v.0)
    }
}

} // verus!
