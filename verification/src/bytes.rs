//! Byte images of integers.
//!
//! The store keeps a text as 16-bit units and a number as one 32-bit word,
//! each with its low byte first. `bytemuck` hands out the image that the
//! integers have in memory, which has the byte order of the machine; the
//! functions here bring that image into the store's order and read it back.

use vstd::prelude::*;

verus! {

/// The low byte of a unit.
pub open spec fn low_byte(u: u16) -> u8 {
    (u % 256) as u8
}

/// The high byte of a unit.
pub open spec fn high_byte(u: u16) -> u8 {
    (u / 256) as u8
}

/// The bytes of `units`, each unit with its low byte first.
pub open spec fn le_bytes16(units: Seq<u16>) -> Seq<u8> {
    Seq::new(
        2 * units.len(),
        |i: int|
            if i % 2 == 0 {
                low_byte(units[i / 2])
            } else {
                high_byte(units[i / 2])
            },
    )
}

/// The bytes of `units`, each unit with its high byte first.
pub open spec fn be_bytes16(units: Seq<u16>) -> Seq<u8> {
    Seq::new(
        2 * units.len(),
        |i: int|
            if i % 2 == 0 {
                high_byte(units[i / 2])
            } else {
                low_byte(units[i / 2])
            },
    )
}

/// The units that `bytes` hold, low byte first. A last byte without a partner
/// belongs to no unit.
pub open spec fn units_of_le(bytes: Seq<u8>) -> Seq<u16> {
    Seq::new((bytes.len() / 2) as nat, |i: int| (bytes[2 * i] + 256 * bytes[2 * i + 1]) as u16)
}

/// The four bytes of a word, low byte first.
pub open spec fn le_bytes32(word: u32) -> Seq<u8> {
    seq![
        (word % 256) as u8,
        (word / 0x100 % 256) as u8,
        (word / 0x1_0000 % 256) as u8,
        (word / 0x100_0000) as u8,
    ]
}

/// The four bytes of a word, high byte first.
pub open spec fn be_bytes32(word: u32) -> Seq<u8> {
    seq![
        (word / 0x100_0000) as u8,
        (word / 0x1_0000 % 256) as u8,
        (word / 0x100 % 256) as u8,
        (word % 256) as u8,
    ]
}

/// The number that at most four bytes hold, low byte first; bytes that are
/// missing count as zero.
pub open spec fn word_of_le(bytes: Seq<u8>) -> int
    recommends
        bytes.len() <= 4,
{
    (if bytes.len() > 0 { bytes[0] as int } else { 0 })
    + (if bytes.len() > 1 { bytes[1] * 0x100 } else { 0 })
    + (if bytes.len() > 2 { bytes[2] * 0x1_0000 } else { 0 })
    + (if bytes.len() > 3 { bytes[3] * 0x100_0000 } else { 0 })
}

/// Units written low byte first are read back as they were.
pub proof fn lemma_units_le_roundtrip(units: Seq<u16>)
    ensures
        units_of_le(le_bytes16(units)) == units,
{
    let bytes = le_bytes16(units);
    assert(bytes.len() / 2 == units.len());
    assert forall|i: int| 0 <= i < units.len() implies units_of_le(bytes)[i] == units[i] by {
        assert(bytes[2 * i] == low_byte(units[(2 * i) / 2]));
        assert(bytes[2 * i + 1] == high_byte(units[(2 * i + 1) / 2]));
    }
    assert(units_of_le(bytes) =~= units);
}

/// A word written low byte first is read back as it was.
pub proof fn lemma_word_le_roundtrip(word: u32)
    ensures
        le_bytes32(word).len() == 4,
        word_of_le(le_bytes32(word)) == word,
{
}

/// `bytemuck::cast_slice` from `u16` to `u8`: the bytes that the units occupy
/// in memory, two for each unit. Every unit lies there in the byte order of
/// the machine, which is one and the same for the whole slice: low byte
/// first, or high byte first. The cast cannot fail in this direction, since a
/// byte needs no alignment and any number of units is a whole number of bytes.
#[verifier::external_body]
fn cast_units(units: &[u16]) -> (image: Vec<u8>)
    ensures
        image@ == le_bytes16(units@) || image@ == be_bytes16(units@),
{
    bytemuck::cast_slice::<u16, u8>(units).to_vec()
}

/// `bytemuck::cast_slice` from one `u32` to `u8`: the four bytes that the word
/// occupies in memory, in the byte order of the machine.
#[verifier::external_body]
fn cast_word(word: u32) -> (image: Vec<u8>)
    ensures
        image@ == le_bytes32(word) || image@ == be_bytes32(word),
{
    bytemuck::cast_slice::<u32, u8>(&[word]).to_vec()
}

/// The bytes of `units` in the store's order, low byte first.
pub fn units_to_le_bytes(units: &[u16]) -> (bytes: Vec<u8>)
    ensures
        bytes@ == le_bytes16(units@),
{
    let image = cast_units(units);
    let mut bytes: Vec<u8> = Vec::new();
    let mut i: usize = 0;
    let total: usize = image.len();
    assert(total == 2 * units@.len());
    while i < units.len()
        invariant
            i <= units.len(),
            total == image@.len() == 2 * units@.len(),
            image@ == le_bytes16(units@) || image@ == be_bytes16(units@),
            bytes@ == le_bytes16(units@.take(i as int)),
        decreases units.len() - i,
    {
        let unit: u16 = units[i];
        let first: u8 = image[2 * i];
        let second: u8 = image[2 * i + 1];
        assert((2 * i) / 2 == i && (2 * i + 1) / 2 == i);
        if first == (unit % 256) as u8 && second == (unit / 256) as u8 {
            bytes.push(first);
            bytes.push(second);
        } else {
            assert(image@ == be_bytes16(units@));
            bytes.push(second);
            bytes.push(first);
        }
        assert(bytes@ =~= le_bytes16(units@.take(i + 1))) by {
            let longer = units@.take(i + 1);
            let shorter = units@.take(i as int);
            assert forall|k: int| 0 <= k < 2 * (i + 1) implies bytes@[k] == le_bytes16(longer)[k] by {
                if k < 2 * i {
                    assert(bytes@[k] == le_bytes16(shorter)[k]);
                    assert(shorter[k / 2] == longer[k / 2]);
                } else {
                    assert(longer[k / 2] == unit);
                }
            }
        }
        i = i + 1;
    }
    assert(units@.take(units@.len() as int) =~= units@);
    bytes
}

/// The four bytes of `word` in the store's order, low byte first.
pub fn word_to_le_bytes(word: u32) -> (bytes: Vec<u8>)
    ensures
        bytes@ == le_bytes32(word),
{
    let image = cast_word(word);
    assert(image@.len() == 4);
    if image[0] == (word % 256) as u8 && image[1] == (word / 0x100 % 256) as u8 && image[2] == (word
        / 0x1_0000 % 256) as u8 && image[3] == (word / 0x100_0000) as u8 {
        assert(image@ =~= le_bytes32(word));
        image
    } else {
        assert(image@ == be_bytes32(word));
        let mut bytes: Vec<u8> = Vec::new();
        bytes.push(image[3]);
        bytes.push(image[2]);
        bytes.push(image[1]);
        bytes.push(image[0]);
        assert(bytes@ =~= le_bytes32(word));
        bytes
    }
}

/// The units that `bytes` hold, low byte first.
pub fn units_from_le_bytes(bytes: &[u8]) -> (units: Vec<u16>)
    ensures
        units@ == units_of_le(bytes@),
{
    let total: usize = bytes.len();
    let count: usize = total / 2;
    let mut units: Vec<u16> = Vec::new();
    let mut i: usize = 0;
    while i < count
        invariant
            i <= count,
            total == bytes@.len(),
            count == total / 2,
            units@ == units_of_le(bytes@).take(i as int),
        decreases count - i,
    {
        let low: u16 = bytes[2 * i] as u16;
        let high: u16 = bytes[2 * i + 1] as u16;
        units.push(low + 256 * high);
        assert(units@ =~= units_of_le(bytes@).take(i + 1));
        i = i + 1;
    }
    assert(units_of_le(bytes@).take(count as int) =~= units_of_le(bytes@));
    units
}

/// The number that at most four bytes hold, low byte first.
pub fn word_from_le_bytes(bytes: &[u8]) -> (word: u32)
    requires
        bytes@.len() <= 4,
    ensures
        word == word_of_le(bytes@),
{
    let mut word: u32 = 0;
    if bytes.len() > 0 {
        word = word + bytes[0] as u32;
    }
    if bytes.len() > 1 {
        word = word + bytes[1] as u32 * 0x100;
    }
    if bytes.len() > 2 {
        word = word + bytes[2] as u32 * 0x1_0000;
    }
    if bytes.len() > 3 {
        word = word + bytes[3] as u32 * 0x100_0000;
    }
    word
}

} // verus!
