use vstd::prelude::*;
use rand::Rng;
use crate::hexcodec::{hex_encode, hex_encoding, is_lower_hex_digit, lemma_hex_encoding_digits};

verus! {

/// Utility for drawing random values.
pub struct Rand;

/// Relies on rand 0.8.8: `Rng::gen::<u8>` on `thread_rng` returns a byte;
/// nothing is assumed about its value.
#[verifier::external_body]
pub(crate) fn random_byte() -> u8 {
    rand::thread_rng().gen::<u8>()
}

/// Relies on rand 0.8.8: `Rng::gen::<u64>` on `thread_rng` returns a
/// 64-bit value; nothing is assumed about its value.
#[verifier::external_body]
fn random_u64() -> u64 {
    rand::thread_rng().gen::<u64>()
}

impl Rand {
    /// Draws `bytes_size` random bytes and returns them as hexadecimal
    /// text: the encoding of those bytes, two lowercase digits each.
    pub fn generate_hex(bytes_size: usize) -> (r: String)
        ensures
            r@.len() == 2 * bytes_size,
            exists|b: Seq<u8>| b.len() == bytes_size && r@ == #[trigger] hex_encoding(b),
            forall|i: int| 0 <= i < r@.len() ==> is_lower_hex_digit(#[trigger] r@[i]),
    {
        let mut output: Vec<u8> = Vec::new();
        let mut i: usize = 0;
        while i < bytes_size
            invariant
                i <= bytes_size,
                output@.len() == i,
            decreases bytes_size - i,
        {
            output.push(random_byte());
            i += 1;
        }
        proof {
            lemma_hex_encoding_digits(output@);
        }
        let r = hex_encode(&output);
        proof {
            assert(output@.len() == bytes_size && r@ == hex_encoding(output@));
        }
        r
    }

    /// Draws a 64-bit value, for instance for use as a nonce.
    pub fn generate() -> u64 {
        random_u64()
    }
}

} // verus!
