use vstd::prelude::*;
use vstd::wrapping::u32_specs;
use vstd::wrapping::u64_specs;
use crate::errors::{KryptyErrors, KryptyResult};
use crate::key::SymmetricKey;

verus! {

/// Key length in bits that every core requires.
pub const SECRET_KEY_SIZE: usize = 256;

/// Bytes in one keystream block.
const STREAM_SIZE: usize = 64;

/// The fixed constants in words 0-3 of the state.
pub const C_0: u32 = 0x61707865;
pub const C_1: u32 = 0x3320646e;
pub const C_2: u32 = 0x79622d32;
pub const C_3: u32 = 0x6b206574;

/// The low 32 bits of a 64-bit value.
pub open spec fn lo32(x: u64) -> u32 {
    (x & 0xffff_ffff) as u32
}

/// The high 32 bits of a 64-bit value.
pub open spec fn hi32(x: u64) -> u32 {
    ((x >> 32) & 0xffff_ffff) as u32
}

/// Word `j` of the key: bytes `4j .. 4j + 4` read little-endian.
pub open spec fn key_word(key: Seq<u8>, j: int) -> u32
    recommends
        0 <= j < 8,
        key.len() == 32,
{
    (key[4 * j] as u32) | ((key[4 * j + 1] as u32) << 8) | ((key[4 * j + 2] as u32) << 16) | (
    (key[4 * j + 3] as u32) << 24)
}

/// The canonical 16-word state for a key, nonce and block counter:
/// four fixed constants, the eight key words, the counter's low and
/// high words, then the nonce's low and high words.
pub open spec fn init_state(key: Seq<u8>, nonce: u64, block: u64) -> Seq<u32>
    recommends
        key.len() == 32,
{
    seq![
        C_0,
        C_1,
        C_2,
        C_3,
        key_word(key, 0),
        key_word(key, 1),
        key_word(key, 2),
        key_word(key, 3),
        key_word(key, 4),
        key_word(key, 5),
        key_word(key, 6),
        key_word(key, 7),
        lo32(block),
        hi32(block),
        lo32(nonce),
        hi32(nonce),
    ]
}

/// Left rotation of a 32-bit word by `n` bits.
pub open spec fn rotl32(x: u32, n: u32) -> u32
    recommends
        0 < n < 32,
{
    (x << n) | (x >> ((32 - n) as u32))
}

/// One quarter round at positions (a, b, c, d): the add-rotate-xor
/// sequence fixed by the algorithm family, with rotations 16, 12, 8, 7,
/// applied in exactly this order.
pub open spec fn spec_quarter_round(s: Seq<u32>, a: int, b: int, c: int, d: int) -> Seq<u32>
    recommends
        0 <= a < s.len(),
        0 <= b < s.len(),
        0 <= c < s.len(),
        0 <= d < s.len(),
{
    let s1 = s.update(a, u32_specs::wrapping_add(s[a], s[b]));
    let s2 = s1.update(d, rotl32(s1[d] ^ s1[a], 16));
    let s3 = s2.update(c, u32_specs::wrapping_add(s2[c], s2[d]));
    let s4 = s3.update(b, rotl32(s3[b] ^ s3[c], 12));
    let s5 = s4.update(a, u32_specs::wrapping_add(s4[a], s4[b]));
    let s6 = s5.update(d, rotl32(s5[d] ^ s5[a], 8));
    let s7 = s6.update(c, u32_specs::wrapping_add(s6[c], s6[d]));
    s7.update(b, rotl32(s7[b] ^ s7[c], 7))
}

/// One double round: quarter rounds over the four columns, then over
/// the four diagonals.
pub open spec fn spec_double_round(s: Seq<u32>) -> Seq<u32>
    recommends
        s.len() == 16,
{
    let t1 = spec_quarter_round(s, 0, 4, 8, 12);
    let t2 = spec_quarter_round(t1, 1, 5, 9, 13);
    let t3 = spec_quarter_round(t2, 2, 6, 10, 14);
    let t4 = spec_quarter_round(t3, 3, 7, 11, 15);
    let t5 = spec_quarter_round(t4, 0, 5, 10, 15);
    let t6 = spec_quarter_round(t5, 1, 6, 11, 12);
    let t7 = spec_quarter_round(t6, 2, 7, 8, 13);
    spec_quarter_round(t7, 3, 4, 9, 14)
}

/// The 16 words of one keystream block: the canonical state for
/// `block`, plus — word by word with wraparound — the canonical state
/// for the following block counter.
pub open spec fn keystream_words(key: Seq<u8>, nonce: u64, block: u64) -> Seq<u32>
    recommends
        key.len() == 32,
{
    Seq::new(
        16,
        |i: int|
            u32_specs::wrapping_add(
                init_state(key, nonce, block)[i],
                init_state(key, nonce, u64_specs::wrapping_add(block, 1))[i],
            ),
    )
}

/// Byte `k` of a word serialized little-endian.
pub open spec fn le_byte(w: u32, k: int) -> u8
    recommends
        0 <= k < 4,
{
    ((w >> ((8 * k) as u32)) & 0xff) as u8
}

/// The 64 bytes of one keystream block: each of the 16 words serialized
/// little-endian, in word order.
pub open spec fn keystream_block_bytes(key: Seq<u8>, nonce: u64, block: u64) -> Seq<u8>
    recommends
        key.len() == 32,
{
    Seq::new(64, |i: int| le_byte(keystream_words(key, nonce, block)[i / 4], i % 4))
}

/// Keystream byte `i` of the stream whose first block has counter
/// `start`; the counter wraps modulo 2^64.
pub open spec fn keystream_byte_at(key: Seq<u8>, nonce: u64, start: u64, i: int) -> u8
    recommends
        key.len() == 32,
        0 <= i,
{
    keystream_block_bytes(key, nonce, u64_specs::wrapping_add(start, (i / 64) as u64))[i % 64]
}

/// A byte sequence XORed against the keystream that starts at block
/// `start`.
pub open spec fn xor_stream(data: Seq<u8>, key: Seq<u8>, nonce: u64, start: u64) -> Seq<u8>
    recommends
        key.len() == 32,
{
    Seq::new(data.len(), |i: int| data[i] ^ keystream_byte_at(key, nonce, start, i))
}

/// Keystream blocks consumed when `n` bytes are enciphered.
pub open spec fn blocks_needed(n: nat) -> u64
    recommends
        n <= usize::MAX,
{
    (((n + 63) / 64)) as u64
}

/// Left rotation of a 32-bit word.
fn rotl(x: u32, n: u32) -> (r: u32)
    requires
        0 < n < 32,
    ensures
        r == rotl32(x, n),
{
    (x << n) | (x >> (32 - n))
}

/// The low 32 bits of a 64-bit value.
fn lo32_exec(x: u64) -> (r: u32)
    ensures
        r == lo32(x),
{
    proof {
        assert(x & 0xffff_ffff <= 0xffff_ffff) by (bit_vector);
    }
    (x & 0xffff_ffff) as u32
}

/// The high 32 bits of a 64-bit value.
fn hi32_exec(x: u64) -> (r: u32)
    ensures
        r == hi32(x),
{
    proof {
        assert((x >> 32) & 0xffff_ffff <= 0xffff_ffff) by (bit_vector);
    }
    ((x >> 32) & 0xffff_ffff) as u32
}

/// Applies one quarter round in place at positions
/// (idx_a, idx_b, idx_c, idx_d) of `state`.
pub fn quarter_round(
    state: &mut Vec<u32>,
    idx_a: usize,
    idx_b: usize,
    idx_c: usize,
    idx_d: usize,
)
    requires
        idx_a < old(state)@.len(),
        idx_b < old(state)@.len(),
        idx_c < old(state)@.len(),
        idx_d < old(state)@.len(),
    ensures
        final(state)@ == spec_quarter_round(
            old(state)@,
            idx_a as int,
            idx_b as int,
            idx_c as int,
            idx_d as int,
        ),
{
    let v = state[idx_a].wrapping_add(state[idx_b]);
    state.set(idx_a, v);
    let v = rotl(state[idx_d] ^ state[idx_a], 16);
    state.set(idx_d, v);
    let v = state[idx_c].wrapping_add(state[idx_d]);
    state.set(idx_c, v);
    let v = rotl(state[idx_b] ^ state[idx_c], 12);
    state.set(idx_b, v);
    let v = state[idx_a].wrapping_add(state[idx_b]);
    state.set(idx_a, v);
    let v = rotl(state[idx_d] ^ state[idx_a], 8);
    state.set(idx_d, v);
    let v = state[idx_c].wrapping_add(state[idx_d]);
    state.set(idx_c, v);
    let v = rotl(state[idx_b] ^ state[idx_c], 7);
    state.set(idx_b, v);
}

/// The cipher core: owns the key, the nonce, the round count, the
/// current 16-word state and the block counter. Keystream generation
/// advances the counter; encrypting and decrypting mutate the core.
#[derive(Debug)]
pub struct ChaChaCore {
    key: SymmetricKey,
    nonce: u64,
    number_round: usize,
    state: Vec<u32>,
    block_number: u64,
}

impl ChaChaCore {
    /// The key bytes the core was built with.
    pub closed spec fn key_bytes(&self) -> Seq<u8> {
        self.key@
    }

    /// The nonce the core was built with.
    pub closed spec fn nonce_value(&self) -> u64 {
        self.nonce
    }

    /// The round count the core was built with.
    pub closed spec fn rounds(&self) -> usize {
        self.number_round
    }

    /// The current block counter.
    pub closed spec fn block_counter(&self) -> u64 {
        self.block_number
    }

    /// Well-formed: a 256-bit key, and the state is the canonical state
    /// for the key, nonce and current block counter.
    pub closed spec fn wf(&self) -> bool {
        &&& self.key@.len() == 32
        &&& self.state@ == init_state(self.key@, self.nonce, self.block_number)
    }

    /// Builds the canonical state for `key` and `nonce`, with the block
    /// counter words set to 0.
    fn get_init_state(key: &SymmetricKey, nonce: u64) -> (r: Vec<u32>)
        requires
            key@.len() == 32,
        ensures
            r@ == init_state(key@, nonce, 0),
    {
        let kb = key.get_key();
        let mut words: Vec<u32> = Vec::new();
        let mut j: usize = 0;
        while j < 8
            invariant
                key@.len() == 32,
                kb@ == key@,
                j <= 8,
                words@.len() == j,
                forall|t: int| 0 <= t < j ==> words@[t] == key_word(key@, t),
            decreases 8 - j,
        {
            let w = (kb[4 * j] as u32) | ((kb[4 * j + 1] as u32) << 8) | ((kb[4 * j + 2] as u32)
                << 16) | ((kb[4 * j + 3] as u32) << 24);
            words.push(w);
            j += 1;
        }
        let mut state: Vec<u32> = Vec::new();
        state.push(C_0);
        state.push(C_1);
        state.push(C_2);
        state.push(C_3);
        state.push(words[0]);
        state.push(words[1]);
        state.push(words[2]);
        state.push(words[3]);
        state.push(words[4]);
        state.push(words[5]);
        state.push(words[6]);
        state.push(words[7]);
        state.push(0);
        state.push(0);
        state.push(lo32_exec(nonce));
        state.push(hi32_exec(nonce));
        proof {
            assert(lo32(0u64) == 0 && hi32(0u64) == 0) by (bit_vector);
            assert(state@ =~= init_state(key@, nonce, 0));
        }
        state
    }

    /// Resets the state from scratch to the canonical state for the
    /// given block counter: only the counter words differ from the
    /// state of a freshly built core.
    fn update_state_for_next_stream(&mut self, block_number: u64)
        requires
            old(self).key@.len() == 32,
        ensures
            final(self).state@ == init_state(old(self).key@, old(self).nonce, block_number),
            final(self).key == old(self).key,
            final(self).nonce == old(self).nonce,
            final(self).number_round == old(self).number_round,
            final(self).block_number == old(self).block_number,
    {
        self.state = ChaChaCore::get_init_state(&self.key, self.nonce);
        let lo = lo32_exec(block_number);
        let hi = hi32_exec(block_number);
        self.state.set(12, lo);
        self.state.set(13, hi);
        proof {
            assert(self.state@ =~= init_state(self.key@, self.nonce, block_number));
        }
    }

    /// Applies the quarter round at the four given state positions.
    fn apply_quarter_round(&mut self, idx_a: usize, idx_b: usize, idx_c: usize, idx_d: usize)
        requires
            idx_a < old(self).state@.len(),
            idx_b < old(self).state@.len(),
            idx_c < old(self).state@.len(),
            idx_d < old(self).state@.len(),
        ensures
            final(self).state@ == spec_quarter_round(
                old(self).state@,
                idx_a as int,
                idx_b as int,
                idx_c as int,
                idx_d as int,
            ),
            final(self).key == old(self).key,
            final(self).nonce == old(self).nonce,
            final(self).number_round == old(self).number_round,
            final(self).block_number == old(self).block_number,
    {
        quarter_round(&mut self.state, idx_a, idx_b, idx_c, idx_d);
    }

    /// One double round on the working state: the four column quarter
    /// rounds, then the four diagonal quarter rounds.
    fn apply_columns_diagonal_rounds(&mut self)
        requires
            old(self).state@.len() == 16,
        ensures
            final(self).state@ == spec_double_round(old(self).state@),
            final(self).key == old(self).key,
            final(self).nonce == old(self).nonce,
            final(self).number_round == old(self).number_round,
            final(self).block_number == old(self).block_number,
    {
        self.apply_quarter_round(0, 4, 8, 12);
        self.apply_quarter_round(1, 5, 9, 13);
        self.apply_quarter_round(2, 6, 10, 14);
        self.apply_quarter_round(3, 7, 11, 15);
        self.apply_quarter_round(0, 5, 10, 15);
        self.apply_quarter_round(1, 6, 11, 12);
        self.apply_quarter_round(2, 7, 8, 13);
        self.apply_quarter_round(3, 4, 9, 14);
    }

    /// Produces one keystream block as 16 words: snapshots the current
    /// state, runs the double rounds on the working state, advances the
    /// block counter, re-initializes the state from scratch for the new
    /// counter, and adds the fresh state words into the snapshot
    /// (feed-forward), word by word with wraparound.
    pub fn get_stream(&mut self) -> (r: Vec<u32>)
        requires
            old(self).wf(),
        ensures
            final(self).wf(),
            final(self).key_bytes() == old(self).key_bytes(),
            final(self).nonce_value() == old(self).nonce_value(),
            final(self).rounds() == old(self).rounds(),
            final(self).block_counter() == u64_specs::wrapping_add(old(self).block_counter(), 1),
            r@ == keystream_words(old(self).key_bytes(), old(self).nonce_value(), old(self).block_counter()),
    {
        let mut output = self.state.clone();
        let ghost snapshot = old(self).state@;
        proof {
            assert forall|i: int| 0 <= i < 16 implies output@[i] == snapshot[i] by {}
            assert(output@ =~= snapshot);
        }

        let rounds = self.number_round / 2;
        let mut t: usize = 0;
        while t < rounds
            invariant
                t <= rounds,
                self.state@.len() == 16,
                self.key == old(self).key,
                self.nonce == old(self).nonce,
                self.number_round == old(self).number_round,
                self.block_number == old(self).block_number,
            decreases rounds - t,
        {
            self.apply_columns_diagonal_rounds();
            t += 1;
        }

        self.block_number = self.block_number.wrapping_add(1);
        let bn = self.block_number;
        self.update_state_for_next_stream(bn);

        let mut i: usize = 0;
        while i < 16
            invariant
                i <= 16,
                output@.len() == 16,
                self.key == old(self).key,
                self.nonce == old(self).nonce,
                self.number_round == old(self).number_round,
                self.block_number == u64_specs::wrapping_add(old(self).block_number, 1),
                self.state@ == init_state(old(self).key@, old(self).nonce, self.block_number),
                forall|t2: int|
                    0 <= t2 < i ==> output@[t2] == u32_specs::wrapping_add(
                        snapshot[t2],
                        self.state@[t2],
                    ),
                forall|t2: int| i <= t2 < 16 ==> output@[t2] == snapshot[t2],
            decreases 16 - i,
        {
            let v = output[i].wrapping_add(self.state[i]);
            output.set(i, v);
            i += 1;
        }
        proof {
            assert(output@ =~= keystream_words(
                old(self).key@,
                old(self).nonce,
                old(self).block_number,
            ));
        }
        output
    }

    /// Builds a core after validating the key size; the block counter
    /// starts at 0. The round count must be even; 8, 12 and 20 are the
    /// exposed variants.
    pub fn new(number_round: usize, secret: SymmetricKey, nonce: u64) -> (r: KryptyResult<Self>)
        requires
            number_round % 2 == 0,
        ensures
            r is Ok <==> secret@.len() == 32,
            r matches Ok(c) ==> c.wf() && c.key_bytes() == secret@ && c.nonce_value() == nonce
                && c.rounds() == number_round && c.block_counter() == 0,
            r matches Err(e) ==> e is InvalidKeySize,
    {
        if secret.get_key().len() != SECRET_KEY_SIZE / 8 {
            return Err(KryptyErrors::InvalidKeySize);
        }
        let state = ChaChaCore::get_init_state(&secret, nonce);
        Ok(ChaChaCore { key: secret, nonce, number_round, state, block_number: 0 })
    }

    /// Enciphers `data`: partitions it into 64-byte chunks, pulls one
    /// keystream block per chunk, and XORs each byte against the
    /// keystream byte at the same stream position. The block counter
    /// advances once per block consumed.
    pub fn encrypt(&mut self, data: &[u8]) -> (r: Vec<u8>)
        requires
            old(self).wf(),
        ensures
            final(self).wf(),
            final(self).key_bytes() == old(self).key_bytes(),
            final(self).nonce_value() == old(self).nonce_value(),
            final(self).rounds() == old(self).rounds(),
            final(self).block_counter() == u64_specs::wrapping_add(
                old(self).block_counter(),
                blocks_needed(data@.len()),
            ),
            r@ == xor_stream(data@, old(self).key_bytes(), old(self).nonce_value(), old(self).block_counter()),
    {
        let ghost key0 = old(self).key@;
        let ghost nonce0 = old(self).nonce;
        let ghost b0 = old(self).block_number;

        let mut output: Vec<u8> = Vec::new();
        let mut pos: usize = 0;
        while pos < data.len()
            invariant
                self.wf(),
                self.key@ == key0,
                self.nonce == nonce0,
                self.number_round == old(self).number_round,
                pos <= data@.len(),
                pos % 64 == 0 || pos == data@.len(),
                output@.len() == pos,
                forall|i: int|
                    0 <= i < pos ==> output@[i] == (data@[i] ^ keystream_byte_at(
                        key0,
                        nonce0,
                        b0,
                        i,
                    )),
                self.block_number == u64_specs::wrapping_add(b0, blocks_needed(pos as nat)),
            decreases data@.len() - pos,
        {
            let ghost q = pos as int / 64;
            proof {
                assert((pos as int + 63) / 64 == q);
            }
            let words = self.get_stream();
            let stream = words_to_le_bytes(&words);
            let ghost blk = u64_specs::wrapping_add(b0, q as u64);
            proof {
                assert forall|k: int| 0 <= k < 64 implies stream@[k] == keystream_block_bytes(
                    key0,
                    nonce0,
                    blk,
                )[k] by {}
            }
            let remaining = data.len() - pos;
            let end = if remaining > STREAM_SIZE {
                pos + STREAM_SIZE
            } else {
                data.len()
            };
            let mut i: usize = pos;
            while i < end
                invariant
                    pos <= i <= end,
                    end <= data@.len(),
                    pos <= end <= pos + 64,
                    pos % 64 == 0,
                    stream@.len() == 64,
                    stream@ == keystream_block_bytes(key0, nonce0, blk),
                    output@.len() == i,
                    forall|t2: int|
                        0 <= t2 < pos ==> output@[t2] == (data@[t2] ^ keystream_byte_at(
                            key0,
                            nonce0,
                            b0,
                            t2,
                        )),
                    forall|t2: int|
                        pos <= t2 < i ==> output@[t2] == (data@[t2] ^ stream@[t2 - pos]),
                decreases end - i,
            {
                let x = data[i] ^ stream[i - pos];
                output.push(x);
                i += 1;
            }
            proof {
                assert forall|t2: int|
                    pos <= t2 < end implies output@[t2] == (data@[t2] ^ keystream_byte_at(
                    key0,
                    nonce0,
                    b0,
                    t2,
                )) by {
                    assert(t2 / 64 == q && t2 % 64 == t2 - pos) by (nonlinear_arith)
                        requires
                            pos as int % 64 == 0,
                            q == pos as int / 64,
                            pos <= t2 < pos + 64,
                    ;
                    assert(keystream_byte_at(key0, nonce0, b0, t2) == keystream_block_bytes(
                        key0,
                        nonce0,
                        blk,
                    )[t2 - pos]);
                }
                assert(blocks_needed(end as nat) == q + 1) by (nonlinear_arith)
                    requires
                        pos as int % 64 == 0,
                        q == pos as int / 64,
                        pos < end <= pos + 64,
                        end <= usize::MAX,
                ;
                assert(u64_specs::wrapping_add(u64_specs::wrapping_add(b0, q as u64), 1)
                    == u64_specs::wrapping_add(b0, blocks_needed(end as nat)));
            }
            pos = end;
        }
        proof {
            assert(output@ =~= xor_stream(data@, key0, nonce0, b0));
        }
        output
    }

    /// Deciphering is the identical stream-XOR operation: replaying the
    /// keystream from the same starting counter restores the input.
    pub fn decrypt(&mut self, data: &[u8]) -> (r: Vec<u8>)
        requires
            old(self).wf(),
        ensures
            final(self).wf(),
            final(self).key_bytes() == old(self).key_bytes(),
            final(self).nonce_value() == old(self).nonce_value(),
            final(self).rounds() == old(self).rounds(),
            final(self).block_counter() == u64_specs::wrapping_add(
                old(self).block_counter(),
                blocks_needed(data@.len()),
            ),
            r@ == xor_stream(data@, old(self).key_bytes(), old(self).nonce_value(), old(self).block_counter()),
    {
        self.encrypt(data)
    }

    /// The raw key bytes.
    pub fn get_secret_key(&self) -> (r: &[u8])
        ensures
            r@ == self.key_bytes(),
    {
        self.key.get_key().as_slice()
    }

    /// The key size in bits that this core requires.
    pub fn get_key_size(&self) -> (r: usize)
        ensures
            r == SECRET_KEY_SIZE,
    {
        SECRET_KEY_SIZE
    }
}

/// Serializes 16 words to 64 bytes, little-endian per word, in word
/// order.
fn words_to_le_bytes(words: &Vec<u32>) -> (r: Vec<u8>)
    requires
        words@.len() == 16,
    ensures
        r@.len() == 64,
        forall|i: int| 0 <= i < 64 ==> r@[i] == le_byte(words@[i / 4], i % 4),
{
    let mut out: Vec<u8> = Vec::new();
    let mut j: usize = 0;
    while j < 16
        invariant
            j <= 16,
            words@.len() == 16,
            out@.len() == 4 * j,
            forall|i: int| 0 <= i < 4 * j ==> out@[i] == le_byte(words@[i / 4], i % 4),
        decreases 16 - j,
    {
        let w = words[j];
        proof {
            assert((w >> 0) & 0xff < 256 && (w >> 8) & 0xff < 256 && (w >> 16) & 0xff < 256 && (w
                >> 24) & 0xff < 256) by (bit_vector);
        }
        out.push(((w >> 0) & 0xff) as u8);
        out.push(((w >> 8) & 0xff) as u8);
        out.push(((w >> 16) & 0xff) as u8);
        out.push(((w >> 24) & 0xff) as u8);
        j += 1;
    }
    out
}

/// The exposed round-count variants of the family.
pub enum ChaChaFamilyAlgorithms {
    ChaCha8,
    ChaCha12,
    ChaCha20,
}

impl ChaChaFamilyAlgorithms {
    /// The round count a variant stands for.
    pub open spec fn spec_round_count(&self) -> usize {
        match self {
            ChaChaFamilyAlgorithms::ChaCha8 => 8,
            ChaChaFamilyAlgorithms::ChaCha12 => 12,
            ChaChaFamilyAlgorithms::ChaCha20 => 20,
        }
    }

    /// The round count a variant stands for.
    pub fn round_count(&self) -> (r: usize)
        ensures
            r == self.spec_round_count(),
    {
        match self {
            ChaChaFamilyAlgorithms::ChaCha8 => 8,
            ChaChaFamilyAlgorithms::ChaCha12 => 12,
            ChaChaFamilyAlgorithms::ChaCha20 => 20,
        }
    }
}

/// Builds cores for the exposed variants; the only validation gate in
/// the library.
pub struct ChaChaBuilder;

impl ChaChaBuilder {
    /// Validates the key size and returns a ready core with block
    /// counter 0; fails with `InvalidKeySize` otherwise.
    pub fn build(algorithm: ChaChaFamilyAlgorithms, secret: SymmetricKey, nonce: u64) -> (r:
        KryptyResult<ChaChaCore>)
        ensures
            r is Ok <==> secret@.len() == 32,
            r matches Ok(c) ==> c.wf() && c.key_bytes() == secret@ && c.nonce_value() == nonce
                && c.rounds() == algorithm.spec_round_count() && c.block_counter() == 0,
            r matches Err(e) ==> e is InvalidKeySize,
    {
        ChaChaCore::new(algorithm.round_count(), secret, nonce)
    }
}

/// Law: round trip. XORing against the keystream twice from the same
/// starting block counter restores the plaintext; hence deciphering
/// with a freshly built core that shares the key and nonce of the core
/// that enciphered (both counters starting equal) yields the original
/// message, for every message.
pub proof fn lemma_round_trip(data: Seq<u8>, key: Seq<u8>, nonce: u64, start: u64)
    requires
        key.len() == 32,
    ensures
        xor_stream(xor_stream(data, key, nonce, start), key, nonce, start) == data,
{
    let once = xor_stream(data, key, nonce, start);
    let twice = xor_stream(once, key, nonce, start);
    assert forall|i: int| 0 <= i < data.len() implies twice[i] == data[i] by {
        let ks = keystream_byte_at(key, nonce, start, i);
        let x = data[i];
        assert((x ^ ks) ^ ks == x) by (bit_vector);
    }
    assert(twice =~= data);
}

/// Law: determinism. The stream a core produces depends only on its
/// key, nonce and block counter, so two independently built cores that
/// share them encipher every message identically.
pub proof fn lemma_determinism(c1: ChaChaCore, c2: ChaChaCore, data: Seq<u8>)
    requires
        c1.key_bytes() == c2.key_bytes(),
        c1.nonce_value() == c2.nonce_value(),
        c1.block_counter() == c2.block_counter(),
    ensures
        xor_stream(data, c1.key_bytes(), c1.nonce_value(), c1.block_counter()) == xor_stream(
            data,
            c2.key_bytes(),
            c2.nonce_value(),
            c2.block_counter(),
        ),
{
}

/// Law: keystream uniqueness across blocks. Two distinct block-counter
/// values below 2^31 never produce the same 64-byte keystream block for
/// one key and nonce: the counter's low word makes byte positions
/// 48..52 differ. (Counters 2^31 apart can collide — for instance 0 and
/// 0x8000_0000 — which is why the bound is required.)
pub proof fn lemma_keystream_uniqueness(key: Seq<u8>, nonce: u64, b1: u64, b2: u64)
    requires
        key.len() == 32,
        b1 != b2,
        b1 < 0x8000_0000,
        b2 < 0x8000_0000,
    ensures
        keystream_block_bytes(key, nonce, b1) != keystream_block_bytes(key, nonce, b2),
{
    let w1 = keystream_words(key, nonce, b1)[12];
    let w2 = keystream_words(key, nonce, b2)[12];
    let s1 = u64_specs::wrapping_add(b1, 1);
    let s2 = u64_specs::wrapping_add(b2, 1);
    assert(s1 == b1 + 1 && s2 == b2 + 1);
    assert(b1 < 0x1_0000_0000 ==> b1 & 0xffff_ffff == b1) by (bit_vector);
    assert(b2 < 0x1_0000_0000 ==> b2 & 0xffff_ffff == b2) by (bit_vector);
    assert(s1 < 0x1_0000_0000 ==> s1 & 0xffff_ffff == s1) by (bit_vector);
    assert(s2 < 0x1_0000_0000 ==> s2 & 0xffff_ffff == s2) by (bit_vector);
    assert(w1 == 2 * b1 + 1 && w2 == 2 * b2 + 1);
    assert(w1 != w2);
    if keystream_block_bytes(key, nonce, b1) == keystream_block_bytes(key, nonce, b2) {
        assert(le_byte(w1, 0) == le_byte(w2, 0)) by {
            assert(keystream_block_bytes(key, nonce, b1)[48] == keystream_block_bytes(
                key,
                nonce,
                b2,
            )[48]);
        }
        assert(le_byte(w1, 1) == le_byte(w2, 1)) by {
            assert(keystream_block_bytes(key, nonce, b1)[49] == keystream_block_bytes(
                key,
                nonce,
                b2,
            )[49]);
        }
        assert(le_byte(w1, 2) == le_byte(w2, 2)) by {
            assert(keystream_block_bytes(key, nonce, b1)[50] == keystream_block_bytes(
                key,
                nonce,
                b2,
            )[50]);
        }
        assert(le_byte(w1, 3) == le_byte(w2, 3)) by {
            assert(keystream_block_bytes(key, nonce, b1)[51] == keystream_block_bytes(
                key,
                nonce,
                b2,
            )[51]);
        }
        assert((w1 >> 0) & 0xff < 256 && (w1 >> 8) & 0xff < 256 && (w1 >> 16) & 0xff < 256 && (w1
            >> 24) & 0xff < 256) by (bit_vector);
        assert((w2 >> 0) & 0xff < 256 && (w2 >> 8) & 0xff < 256 && (w2 >> 16) & 0xff < 256 && (w2
            >> 24) & 0xff < 256) by (bit_vector);
        assert(((w1 >> 0) & 0xff == (w2 >> 0) & 0xff && (w1 >> 8) & 0xff == (w2 >> 8) & 0xff && (
        w1 >> 16) & 0xff == (w2 >> 16) & 0xff && (w1 >> 24) & 0xff == (w2 >> 24) & 0xff) ==> w1
            == w2) by (bit_vector);
        assert(false);
    }
}

} // verus!
