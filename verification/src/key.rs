use vstd::prelude::*;
use crate::errors::KryptyErrors;
use crate::hexcodec::{hex_bytes, hex_decode, valid_hex_string};

verus! {

/// A raw symmetric key: a sequence of secret bytes. Any length can be
/// held; a cipher core validates the length it needs at construction.
#[derive(Debug)]
pub struct SymmetricKey(Vec<u8>);

impl View for SymmetricKey {
    type V = Seq<u8>;

    closed spec fn view(&self) -> Seq<u8> {
        self.0@
    }
}

impl SymmetricKey {
    pub fn new(data: Vec<u8>) -> (r: Self)
        ensures
            r@ == data@,
    {
        SymmetricKey(data)
    }

    pub fn get_key(&self) -> (r: &Vec<u8>)
        ensures
            r@ == self@,
    {
        &self.0
    }

    /// Builds a key from hexadecimal text; succeeds exactly on an
    /// even-length string of hexadecimal digits.
    pub fn try_from(value: &str) -> (r: Result<Self, KryptyErrors>)
        ensures
            r is Ok <==> valid_hex_string(value@),
            r matches Ok(k) ==> k@ == hex_bytes(value@),
            r matches Err(e) ==> e is HexParsing,
    {
        match hex_decode(value) {
            Ok(bytes) => Ok(SymmetricKey(bytes)),
            Err(e) => Err(KryptyErrors::HexParsing(e)),
        }
    }
}

} // verus!
