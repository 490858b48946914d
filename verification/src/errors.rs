use vstd::prelude::*;

verus! {

/// Declares the error type of the `hex` crate so that it can stand in
/// signatures and fields; it is carried through as an opaque value.
#[verifier::external_type_specification]
#[verifier::external_body]
pub struct ExFromHexError(hex::FromHexError);

/// The errors this library reports.
#[derive(Debug)]
pub enum KryptyErrors {
    /// A cipher core was asked to use a key whose length is not 256 bits.
    InvalidKeySize,
    /// A textual key was not valid hexadecimal; carries the error the
    /// `hex` crate reported.
    HexParsing(hex::FromHexError),
}

pub type KryptyResult<T> = Result<T, KryptyErrors>;

} // verus!
