//! The uniform blocks and their bytes, as the shader reads them: every
//! 32-bit value lies in little-endian order.

use vstd::prelude::*;

verus! {

/// The time block. The elapsed seconds are held as the bits of a 32-bit
/// float.
#[derive(Clone, Copy, Debug, PartialEq, Eq, Structural)]
pub struct Time {
    pub frame: u32,
    pub elapsed: u32,
}

/// The mouse block.
#[derive(Clone, Copy, Debug, PartialEq, Eq, Structural)]
pub struct Mouse {
    pub x: u32,
    pub y: u32,
    pub click: bool,
}

/// The four bytes of a 32-bit value, lowest first.
pub open spec fn le_bytes(value: u32) -> Seq<u8> {
    seq![
        (value % 256) as u8,
        (value / 256 % 256) as u8,
        (value / 65536 % 256) as u8,
        (value / 16777216) as u8,
    ]
}

/// The 32-bit value that four bytes write, lowest first.
pub open spec fn le_value(bytes: Seq<u8>) -> u32 {
    (bytes[0] + 256 * bytes[1] + 65536 * bytes[2] + 16777216 * bytes[3]) as u32
}

/// The bytes of a sequence of 32-bit values, one after the other.
pub open spec fn words_le(values: Seq<u32>) -> Seq<u8>
    decreases values.len(),
{
    if values.len() == 0 {
        Seq::empty()
    } else {
        words_le(values.drop_last()) + le_bytes(values.last())
    }
}

/// The 32-bit values that a sequence of bytes writes, four bytes each.
pub open spec fn le_words(bytes: Seq<u8>, count: nat) -> Seq<u32> {
    Seq::new(count, |i: int| le_value(bytes.subrange(4 * i, 4 * i + 4)))
}

/// The click flag as a signed 32-bit number.
pub open spec fn click_value(click: bool) -> u32 {
    if click {
        1
    } else {
        0
    }
}

/// The bytes of the time block: frame counter, then elapsed seconds.
pub open spec fn time_bytes_spec(time: Time) -> Seq<u8> {
    le_bytes(time.frame) + le_bytes(time.elapsed)
}

/// The bytes of the mouse block: position, then click flag.
pub open spec fn mouse_bytes_spec(mouse: Mouse) -> Seq<u8> {
    le_bytes(mouse.x) + le_bytes(mouse.y) + le_bytes(click_value(mouse.click))
}

/// The pairs of index and count of the counters that are not zero, in
/// the order of the counters.
pub open spec fn failed_spec(counts: Seq<u32>) -> Seq<(usize, u32)>
    decreases counts.len(),
{
    if counts.len() == 0 {
        Seq::empty()
    } else if counts.last() > 0 {
        failed_spec(counts.drop_last()).push(((counts.len() - 1) as usize, counts.last()))
    } else {
        failed_spec(counts.drop_last())
    }
}

/// Appends the bytes of a 32-bit value to a buffer.
pub fn push_le(bytes: &mut Vec<u8>, value: u32)
    ensures
        final(bytes)@ == old(bytes)@ + le_bytes(value),
{
    let ghost before = bytes@;
    bytes.push((value % 256) as u8);
    bytes.push((value / 256 % 256) as u8);
    bytes.push((value / 65536 % 256) as u8);
    bytes.push((value / 16777216) as u8);
    assert(bytes@ =~= before + le_bytes(value));
}

/// Each value takes four bytes.
pub proof fn lemma_words_le_len(values: Seq<u32>)
    ensures
        words_le(values).len() == 4 * values.len(),
    decreases values.len(),
{
    if values.len() > 0 {
        lemma_words_le_len(values.drop_last());
    }
}

/// Reading back what was written gives the value again.
pub proof fn lemma_le_round_trip(value: u32)
    ensures
        le_value(le_bytes(value)) == value,
        le_bytes(value).len() == 4,
{
}

/// The bytes of the time block.
pub fn time_bytes(time: &Time) -> (bytes: Vec<u8>)
    ensures
        bytes@ == time_bytes_spec(*time),
        bytes@.len() == 8,
{
    let mut bytes: Vec<u8> = Vec::new();
    push_le(&mut bytes, time.frame);
    push_le(&mut bytes, time.elapsed);
    assert(bytes@ =~= time_bytes_spec(*time));
    bytes
}

/// The bytes of the mouse block.
pub fn mouse_bytes(mouse: &Mouse) -> (bytes: Vec<u8>)
    ensures
        bytes@ == mouse_bytes_spec(*mouse),
        bytes@.len() == 12,
{
    let mut bytes: Vec<u8> = Vec::new();
    push_le(&mut bytes, mouse.x);
    push_le(&mut bytes, mouse.y);
    push_le(
        &mut bytes,
        if mouse.click {
            1
        } else {
            0
        },
    );
    assert(bytes@ =~= mouse_bytes_spec(*mouse));
    bytes
}

/// The bytes of the custom parameters: the bits of each float in order.
pub fn custom_bytes(values: &Vec<u32>) -> (bytes: Vec<u8>)
    ensures
        bytes@ == words_le(values@),
{
    let mut bytes: Vec<u8> = Vec::new();
    let mut i: usize = 0;
    assert(values@.take(0) =~= Seq::<u32>::empty());
    while i < values.len()
        invariant
            i <= values.len(),
            bytes@ == words_le(values@.take(i as int)),
        decreases values.len() - i,
    {
        assert(values@.take(i + 1).drop_last() =~= values@.take(i as int));
        push_le(&mut bytes, values[i]);
        i = i + 1;
    }
    assert(values@.take(i as int) =~= values@);
    bytes
}

/// Bytes that are all zero.
pub fn zero_bytes(len: usize) -> (bytes: Vec<u8>)
    ensures
        bytes@ == Seq::new(len as nat, |i: int| 0u8),
{
    let mut bytes: Vec<u8> = Vec::new();
    let mut i: usize = 0;
    while i < len
        invariant
            i <= len,
            bytes@ =~= Seq::new(i as nat, |i: int| 0u8),
        decreases len - i,
    {
        bytes.push(0);
        i = i + 1;
    }
    bytes
}

/// Reads 32-bit values out of the head of a buffer that was read back.
pub fn read_le_words(bytes: &[u8], count: usize) -> (values: Vec<u32>)
    requires
        4 * count <= bytes@.len(),
    ensures
        values@ == le_words(bytes@, count as nat),
{
    let mut values: Vec<u32> = Vec::new();
    let len: usize = bytes.len();
    let mut i: usize = 0;
    while i < count
        invariant
            i <= count,
            4 * count <= bytes@.len() == len,
            values@ =~= le_words(bytes@, i as nat),
        decreases count - i,
    {
        let b0: u32 = bytes[4 * i] as u32;
        let b1: u32 = bytes[4 * i + 1] as u32;
        let b2: u32 = bytes[4 * i + 2] as u32;
        let b3: u32 = bytes[4 * i + 3] as u32;
        values.push(b0 + 256 * b1 + 65536 * b2 + 16777216 * b3);
        i = i + 1;
    }
    values
}

/// Picks the assertion counters that counted a failure, each with its
/// index.
pub fn failed_assertions(counts: &Vec<u32>) -> (failed: Vec<(usize, u32)>)
    ensures
        failed@ == failed_spec(counts@),
{
    let mut failed: Vec<(usize, u32)> = Vec::new();
    let mut i: usize = 0;
    assert(counts@.take(0) =~= Seq::<u32>::empty());
    while i < counts.len()
        invariant
            i <= counts.len(),
            failed@ == failed_spec(counts@.take(i as int)),
        decreases counts.len() - i,
    {
        assert(counts@.take(i + 1).drop_last() =~= counts@.take(i as int));
        if counts[i] > 0 {
            failed.push((i, counts[i]));
        }
        i = i + 1;
    }
    assert(counts@.take(i as int) =~= counts@);
    failed
}

} // verus!
