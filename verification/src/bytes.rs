//! Little-endian numbers in a sequence of bytes.

use vstd::prelude::*;

verus! {

/// The number that `count` bytes from `start` on spell, least significant
/// byte first.
pub open spec fn le_value(bytes: Seq<u8>, start: int, count: nat) -> nat
    decreases count,
{
    if count == 0 {
        0
    } else {
        bytes[start] as nat + 256 * le_value(bytes, start + 1, (count - 1) as nat)
    }
}

/// `count` bytes spell a number below `256^count`; stated for the counts up
/// to eight, each with its bound written out.
pub proof fn lemma_le_value_bound(bytes: Seq<u8>, start: int, count: nat)
    requires
        count <= 8,
    ensures
        count == 0 ==> le_value(bytes, start, count) == 0,
        count == 1 ==> le_value(bytes, start, count) < 0x100,
        count == 2 ==> le_value(bytes, start, count) < 0x1_0000,
        count == 3 ==> le_value(bytes, start, count) < 0x100_0000,
        count == 4 ==> le_value(bytes, start, count) < 0x1_0000_0000,
        count == 5 ==> le_value(bytes, start, count) < 0x100_0000_0000,
        count == 6 ==> le_value(bytes, start, count) < 0x1_0000_0000_0000,
        count == 7 ==> le_value(bytes, start, count) < 0x100_0000_0000_0000,
        count == 8 ==> le_value(bytes, start, count) < 0x1_0000_0000_0000_0000,
    decreases count,
{
    if count > 0 {
        lemma_le_value_bound(bytes, start + 1, (count - 1) as nat);
    }
}

/// `binrw::Error`, the error of a failed read. Nothing is said of what it
/// holds.
#[verifier::external_type_specification]
#[verifier::external_body]
pub struct ExBinrwError(binrw::Error);

/// `binrw::BinRead::read_le` for `u16`, on a cursor over `bytes` that stands
/// at `pos`: it succeeds if and only if two bytes lie at `pos`, and gives
/// the number that they spell, least significant byte first.
#[verifier::external_body]
pub(crate) fn read_u16_le(bytes: &[u8], pos: u64) -> (r: Result<u16, binrw::Error>)
    ensures
        r is Ok <==> pos + 2 <= bytes@.len(),
        r matches Ok(v) ==> v == le_value(bytes@, pos as int, 2),
{
    let mut cursor = binrw::io::Cursor::new(bytes);
    cursor.set_position(pos);
    binrw::BinRead::read_le(&mut cursor)
}

/// `binrw::BinRead::read_le` for `u32`, on a cursor over `bytes` that stands
/// at `pos`: it succeeds if and only if four bytes lie at `pos`, and gives
/// the number that they spell, least significant byte first.
#[verifier::external_body]
pub(crate) fn read_u32_le(bytes: &[u8], pos: u64) -> (r: Result<u32, binrw::Error>)
    ensures
        r is Ok <==> pos + 4 <= bytes@.len(),
        r matches Ok(v) ==> v == le_value(bytes@, pos as int, 4),
{
    let mut cursor = binrw::io::Cursor::new(bytes);
    cursor.set_position(pos);
    binrw::BinRead::read_le(&mut cursor)
}

} // verus!
