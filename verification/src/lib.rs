//! A keystream-based symmetric stream cipher of the ChaCha family
//! (round counts 8, 12 and 20), together with the small helpers that
//! surround it: a raw key type with hexadecimal transport, a key
//! generator, and a random-value utility.

pub mod chacha;
pub mod errors;
pub mod generator;
pub mod hexcodec;
pub mod key;
pub mod util;
