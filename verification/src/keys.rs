//! The keyboard bitmap: one bit per key code, packed into bytes for the
//! shader's key predicate.

use vstd::prelude::*;

verus! {

/// Number of key codes that the bitmap tracks.
pub const NUM_KEYCODES: usize = 256;

/// Bytes of the bitmap.
pub const KEY_BYTES: usize = 32;

/// The keyboard bitmap: a bit array of the bitvec crate over 32 bytes,
/// the least significant bit of each byte first.
#[verifier::external_body]
pub struct Keys {
    bits: bitvec::array::BitArray<[u8; 32], bitvec::order::Lsb0>,
}

/// The bits of a bitmap, indexed by key code.
pub uninterp spec fn key_bits(keys: Keys) -> Seq<bool>;

impl View for Keys {
    type V = Seq<bool>;

    open spec fn view(&self) -> Seq<bool> {
        key_bits(*self)
    }
}

/// A bit as a number.
pub open spec fn bit(set: bool) -> nat {
    if set {
        1
    } else {
        0
    }
}

/// The byte that packs eight bits of a bitmap, the first of them lowest.
pub open spec fn packed_byte(bits: Seq<bool>, byte: int) -> u8 {
    (bit(bits[8 * byte]) + 2 * bit(bits[8 * byte + 1]) + 4 * bit(bits[8 * byte + 2]) + 8 * bit(
        bits[8 * byte + 3],
    ) + 16 * bit(bits[8 * byte + 4]) + 32 * bit(bits[8 * byte + 5]) + 64 * bit(bits[8 * byte + 6])
        + 128 * bit(bits[8 * byte + 7])) as u8
}

/// The bytes of a bitmap: key code `k` is bit `k % 8` of byte `k / 8`.
pub open spec fn packed_bytes(bits: Seq<bool>) -> Seq<u8> {
    Seq::new(32, |byte: int| packed_byte(bits, byte))
}

/// A bitmap with no key down: `BitArray::ZERO`, whose bits are all
/// zero; there are 256 of them, eight for each of the 32 bytes.
#[verifier::external_body]
fn zeroed() -> (keys: Keys)
    ensures
        key_bits(keys) == Seq::new(256, |code: int| false),
{
    Keys { bits: bitvec::array::BitArray::ZERO }
}

/// Writes one bit with `BitSlice::set`, which changes the bit at the
/// index and no other, and panics on an index past the end.
#[verifier::external_body]
fn set_bit(keys: &mut Keys, index: usize, value: bool)
    requires
        index < key_bits(*old(keys)).len(),
    ensures
        key_bits(*final(keys)) == key_bits(*old(keys)).update(index as int, value),
{
    keys.bits.set(index, value)
}

/// Copies the bytes under the bits, seen with `BitArray::as_raw_slice`.
/// With the `Lsb0` order over bytes, bit `k` lies in byte `k / 8` at
/// position `k % 8`, counted from the least significant bit.
#[verifier::external_body]
fn raw_bytes(keys: &Keys) -> (bytes: Vec<u8>)
    requires
        key_bits(*keys).len() == 256,
    ensures
        bytes@ == packed_bytes(key_bits(*keys)),
{
    keys.bits.as_raw_slice().to_vec()
}

/// The 32-bit word that the shader reads at an index of the bitmap: four
/// bytes, lowest first.
pub open spec fn key_word(bytes: Seq<u8>, word: int) -> int {
    bytes[4 * word] + 256 * bytes[4 * word + 1] + 65536 * bytes[4 * word + 2] + 16777216
        * bytes[4 * word + 3]
}

/// The shader's key predicate: the bit of a key code lies in word
/// `code / 32` at position `code % 32`.
pub open spec fn key_down(bytes: Seq<u8>, code: int) -> bool {
    (key_word(bytes, code / 32) / (vstd::arithmetic::power2::pow2((code % 32) as nat) as int)) % 2
        == 1
}

proof fn lemma_bit_of_byte(b: Seq<bool>, k: int)
    requires
        b.len() == 8,
        0 <= k < 8,
    ensures
        ((bit(b[0]) + 2 * bit(b[1]) + 4 * bit(b[2]) + 8 * bit(b[3]) + 16 * bit(b[4]) + 32 * bit(
            b[5],
        ) + 64 * bit(b[6]) + 128 * bit(b[7])) as int / (vstd::arithmetic::power2::pow2(k as nat)
            as int)) % 2 == bit(b[k]),
{
    vstd::arithmetic::power2::lemma2_to64();
    let x: int = (bit(b[0]) + 2 * bit(b[1]) + 4 * bit(b[2]) + 8 * bit(b[3]) + 16 * bit(b[4]) + 32
        * bit(b[5]) + 64 * bit(b[6]) + 128 * bit(b[7])) as int;
    if k == 0 {
        assert((x / 1) % 2 == bit(b[0]));
    } else if k == 1 {
        assert((x / 2) % 2 == bit(b[1]));
    } else if k == 2 {
        assert((x / 4) % 2 == bit(b[2]));
    } else if k == 3 {
        assert((x / 8) % 2 == bit(b[3]));
    } else if k == 4 {
        assert((x / 16) % 2 == bit(b[4]));
    } else if k == 5 {
        assert((x / 32) % 2 == bit(b[5]));
    } else if k == 6 {
        assert((x / 64) % 2 == bit(b[6]));
    } else {
        assert((x / 128) % 2 == bit(b[7]));
    }
}

proof fn lemma_low_bits(x: u32, k: int)
    requires
        0 <= k < 8,
    ensures
        (x as int / (vstd::arithmetic::power2::pow2(k as nat) as int)) % 2 == ((x as int % 256) / (
        vstd::arithmetic::power2::pow2(k as nat) as int)) % 2,
{
    vstd::arithmetic::power2::lemma2_to64();
    if k == 0 {
        assert((x / 1) % 2 == ((x % 256) / 1) % 2) by (bit_vector);
    } else if k == 1 {
        assert((x / 2) % 2 == ((x % 256) / 2) % 2) by (bit_vector);
    } else if k == 2 {
        assert((x / 4) % 2 == ((x % 256) / 4) % 2) by (bit_vector);
    } else if k == 3 {
        assert((x / 8) % 2 == ((x % 256) / 8) % 2) by (bit_vector);
    } else if k == 4 {
        assert((x / 16) % 2 == ((x % 256) / 16) % 2) by (bit_vector);
    } else if k == 5 {
        assert((x / 32) % 2 == ((x % 256) / 32) % 2) by (bit_vector);
    } else if k == 6 {
        assert((x / 64) % 2 == ((x % 256) / 64) % 2) by (bit_vector);
    } else {
        assert((x / 128) % 2 == ((x % 256) / 128) % 2) by (bit_vector);
    }
}

proof fn lemma_bit_of_word(b0: int, b1: int, b2: int, b3: int, m: int, k: int)
    requires
        0 <= b0 < 256,
        0 <= b1 < 256,
        0 <= b2 < 256,
        0 <= b3 < 256,
        0 <= m < 4,
        0 <= k < 8,
    ensures
        ((b0 + 256 * b1 + 65536 * b2 + 16777216 * b3) / (vstd::arithmetic::power2::pow2(
            (8 * m + k) as nat,
        ) as int)) % 2 == ((if m == 0 {
            b0
        } else if m == 1 {
            b1
        } else if m == 2 {
            b2
        } else {
            b3
        }) / (vstd::arithmetic::power2::pow2(k as nat) as int)) % 2,
{
    vstd::arithmetic::power2::lemma2_to64();
    let w: int = b0 + 256 * b1 + 65536 * b2 + 16777216 * b3;
    let c: int = vstd::arithmetic::power2::pow2((8 * m) as nat) as int;
    let d: int = vstd::arithmetic::power2::pow2(k as nat) as int;
    let x: int = w / c;
    if m == 0 {
        assert((w / 1) % 256 == b0);
    } else if m == 1 {
        assert((w / 256) % 256 == b1);
    } else if m == 2 {
        assert((w / 65536) % 256 == b2);
    } else {
        assert((w / 16777216) % 256 == b3);
    }
    vstd::arithmetic::power2::lemma_pow2_pos(k as nat);
    vstd::arithmetic::power2::lemma_pow2_pos((8 * m) as nat);
    vstd::arithmetic::power2::lemma_pow2_adds((8 * m) as nat, k as nat);
    vstd::arithmetic::div_mod::lemma_div_denominator(w, c, d);
    assert(0 <= x <= w) by {
        vstd::arithmetic::div_mod::lemma_div_pos_is_pos(w, c);
        vstd::arithmetic::div_mod::lemma_div_is_ordered_by_denominator(w, 1, c);
    }
    lemma_low_bits(x as u32, k);
}

/// The bytes of a bitmap answer the shader's key predicate: a key is
/// seen as down exactly when its bit is set.
pub proof fn lemma_key_predicate(bits: Seq<bool>, code: int)
    requires
        bits.len() == NUM_KEYCODES,
        0 <= code < NUM_KEYCODES,
    ensures
        key_down(packed_bytes(bits), code) == bits[code],
{
    let bytes = packed_bytes(bits);
    let word = code / 32;
    let m = (code % 32) / 8;
    let k = code % 8;
    let byte = 4 * word + m;
    assert(code == 8 * byte + k);
    assert(code % 32 == 8 * m + k);
    lemma_bit_of_word(
        bytes[4 * word] as int,
        bytes[4 * word + 1] as int,
        bytes[4 * word + 2] as int,
        bytes[4 * word + 3] as int,
        m,
        k,
    );
    let eight = bits.subrange(8 * byte, 8 * byte + 8);
    lemma_bit_of_byte(eight, k);
    assert(bytes[byte] == packed_byte(bits, byte));
}

impl Keys {
    /// Whether the bitmap has a bit for each key code.
    pub open spec fn wf(&self) -> bool {
        self@.len() == NUM_KEYCODES
    }

    /// A bitmap with no key down.
    pub fn new() -> (keys: Keys)
        ensures
            keys.wf(),
            forall|code: int| 0 <= code < NUM_KEYCODES ==> !keys@[code],
    {
        zeroed()
    }

    /// Records that a key went down or up.
    pub fn set(&mut self, keycode: usize, keydown: bool)
        requires
            old(self).wf(),
            keycode < NUM_KEYCODES,
        ensures
            final(self).wf(),
            final(self)@ == old(self)@.update(keycode as int, keydown),
    {
        set_bit(self, keycode, keydown)
    }

    /// The bytes of the bitmap, as the shader reads them.
    pub fn to_bytes(&self) -> (bytes: Vec<u8>)
        requires
            self.wf(),
        ensures
            bytes@ == packed_bytes(self@),
            bytes@.len() == KEY_BYTES,
    {
        raw_bytes(self)
    }
}

} // verus!
