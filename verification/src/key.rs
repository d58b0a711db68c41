//! The packed key of a byte pair, by which the table of named codes is searched.
use vstd::prelude::*;

verus! {

/// The key of a byte pair.  Without an intermediate byte it is the control
/// byte; with one, the intermediate byte moves eight bits up and the control
/// byte fills the low eight bits.
pub open spec fn packed_key(intermediate: Option<u8>, control: u8) -> int {
    match intermediate {
        Some(high) => high as int * 256 + control as int,
        None => control as int,
    }
}

/// The byte pair of a key: a key above 255 gives its high byte as the
/// intermediate byte, any other key has none.
pub open spec fn unpacked(key: int) -> (Option<u8>, u8)
    recommends
        0 <= key < 0x1_0000,
{
    if key > 255 {
        (Some((key / 256) as u8), (key % 256) as u8)
    } else {
        (None, key as u8)
    }
}

/// Packs a byte pair into its key.
pub fn pack(intermediate: Option<u8>, control: u8) -> (key: u16)
    ensures
        key as int == packed_key(intermediate, control),
{
    match intermediate {
        Some(high) => {
            let high: u16 = high as u16;
            let low: u16 = control as u16;
            assert((high << 8) | low == high * 256 + low) by (bit_vector)
                requires
                    high < 256,
                    low < 256,
            ;
            (high << 8) | low
        },
        None => control as u16,
    }
}

/// Splits a key into its byte pair, the high byte first.
pub fn unpack(key: u16) -> (pair: (Option<u8>, u8))
    ensures
        pair == unpacked(key as int),
{
    assert(key >> 8 == key / 256 && key & 0xff == key % 256) by (bit_vector);
    if key > 0xff {
        (Some((key >> 8) as u8), (key & 0xff) as u8)
    } else {
        (None, (key & 0xff) as u8)
    }
}

/// A key without an intermediate byte lies below 256, and one with an
/// intermediate byte other than zero lies at or above 256: the two forms
/// never meet.
pub proof fn lemma_key_ranges(intermediate: Option<u8>, control: u8)
    ensures
        0 <= packed_key(intermediate, control) < 0x1_0000,
        intermediate is None ==> packed_key(intermediate, control) < 256,
        intermediate matches Some(high) && high != 0 ==> packed_key(intermediate, control) >= 256,
{
}

/// A zero intermediate byte leaves no trace in the key.
pub proof fn lemma_zero_intermediate_key(control: u8)
    ensures
        packed_key(Some(0u8), control) == packed_key(None, control),
{
}

/// Unpacking gives back the pair that was packed, unless its intermediate
/// byte was zero.
pub proof fn lemma_unpack_inverts_pack(intermediate: Option<u8>, control: u8)
    requires
        intermediate != Some(0u8),
    ensures
        unpacked(packed_key(intermediate, control)) == (intermediate, control),
{
}

/// Packing gives back the key that was unpacked.
pub proof fn lemma_pack_inverts_unpack(key: int)
    requires
        0 <= key < 0x1_0000,
    ensures
        packed_key(unpacked(key).0, unpacked(key).1) == key,
{
}

} // verus!
