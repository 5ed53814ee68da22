use vstd::prelude::*;

verus! {

#[verifier::external_type_specification]
#[verifier::external_body]
pub struct ExParseIntError(std::num::ParseIntError);

#[verifier::external_type_specification]
#[verifier::external_body]
pub struct ExIoErrorKind(std::io::ErrorKind);

/// The ways in which reading a patch description can fail.
///
/// Two errors are equal when they are of the same variant and carry the same
/// kind of underlying cause; message text plays no part.
#[derive(Debug, PartialEq, Eq)]
pub enum PatchFileError {
    /// A field that passed the structural checks could not be converted to a
    /// number. The fixed field widths make this unreachable for well-formed
    /// lines; the variant is kept for formats with wider fields.
    ConvertionError(std::num::ParseIntError),
    /// The source could not yield a line. Holds the kind of the I/O failure.
    ReadError(std::io::ErrorKind),
    /// The input breaks the grammar: a header without `>`, a line of the wrong
    /// length, a misplaced separator, or a character that is not a hex digit.
    WrongFormat,
}

impl From<std::num::ParseIntError> for PatchFileError {
    fn from(error: std::num::ParseIntError) -> (r: Self)
        ensures
            r == PatchFileError::ConvertionError(error),
    {
        PatchFileError::ConvertionError(error)
    }
}

impl vstd::std_specs::convert::FromSpecImpl<std::num::ParseIntError> for PatchFileError {
    open spec fn obeys_from_spec() -> bool {
        true
    }

    open spec fn from_spec(error: std::num::ParseIntError) -> Self {
        PatchFileError::ConvertionError(error)
    }
}

} // verus!
