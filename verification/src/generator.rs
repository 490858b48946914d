use vstd::prelude::*;
use crate::util::random_byte;

verus! {

/// Produces raw key material.
pub struct KeyGenerator;

impl KeyGenerator {
    /// Draws `bytes_size` random bytes for use as a symmetric key.
    pub fn generate_symmetric_key(bytes_size: usize) -> (r: Vec<u8>)
        ensures
            r@.len() == bytes_size,
    {
        let mut output: Vec<u8> = Vec::new();
        let mut i: usize = 0;
        while i < bytes_size
            invariant
                i <= bytes_size,
                output@.len() == i,
            decreases bytes_size - i,
        {
            output.push(random_byte());
            i += 1;
        }
        output
    }
}

} // verus!
