//! The fixed Prefix block at the start of a log: its size, and the bounds check
//! on the Info-block offset that it carries.
use vstd::prelude::*;

verus! {

/// Size in bytes of the Prefix block.
pub const PREFIX_SIZE: usize = 100;

/// Byte position of the format version within the Prefix block.
pub const VERSION_POSITION: usize = 10;

/// First format version whose Info block follows the Prefix block directly,
/// rather than at the offset that the Prefix block records.
pub const FIXED_DETAIL_VERSION: u8 = 12;

/// First format version whose Info block is an auxiliary block with its own
/// length, and whose Prefix offset locates the record section.
pub const AUXILIARY_VERSION: u8 = 13;

/// First format version with the wider serial-number layout of the Info block.
pub const WIDE_INFO_VERSION: u8 = 6;

/// Bytes of the Info block up to its last field, before the wide layout.
pub const NARROW_INFO_SIZE: usize = 356;

/// Bytes of the Info block up to its last field, in the wide layout.
pub const WIDE_INFO_SIZE: usize = 380;

/// Bytes of the Info block of the fixed-offset version, which the record
/// section follows.
pub const FIXED_INFO_SIZE: usize = 436;

/// Size of an auxiliary block's header: a tag byte and a 16-bit length.
pub const AUXILIARY_HEADER_SIZE: usize = 3;

/// The unsigned integer that a sequence of bytes encodes, least significant first.
pub open spec fn le_value(s: Seq<u8>) -> nat
    decreases s.len(),
{
    if s.len() == 0 {
        0
    } else {
        s[0] as nat + 256 * le_value(s.drop_first())
    }
}

/// 256 to the power `n`.
pub open spec fn pow256(n: nat) -> nat
    decreases n,
{
    if n == 0 {
        1
    } else {
        256 * pow256((n - 1) as nat)
    }
}

/// The Info-block offset recorded in the first eight bytes of the Prefix block.
pub open spec fn detail_offset_of(bytes: Seq<u8>) -> nat {
    le_value(bytes.subrange(0, 8))
}

/// The length recorded in the header of the auxiliary block that follows the
/// Prefix block.
pub open spec fn auxiliary_length_of(bytes: Seq<u8>) -> nat {
    bytes[PREFIX_SIZE as int + 1] as nat + 256 * bytes[PREFIX_SIZE as int + 2] as nat
}

/// The Prefix block is complete, and the Info block and record section that it
/// locates lie within the buffer, whole:
/// - before the fixed-offset version, the Info block lies whole at the recorded offset;
/// - at that version, the Info block and the record section follow the Prefix block;
/// - from the auxiliary version on, the auxiliary Info block after the Prefix block
///   is whole, and the recorded offset of the record section is within the buffer
///   (zero when the parser is to recover it from the auxiliary blocks).
pub open spec fn prefix_in_bounds(bytes: Seq<u8>) -> bool {
    &&& bytes.len() >= PREFIX_SIZE
    &&& {
        let v = bytes[VERSION_POSITION as int];
        let off = detail_offset_of(bytes);
        if v < WIDE_INFO_VERSION {
            off + NARROW_INFO_SIZE <= bytes.len()
        } else if v < FIXED_DETAIL_VERSION {
            off + WIDE_INFO_SIZE <= bytes.len()
        } else if v == FIXED_DETAIL_VERSION {
            PREFIX_SIZE + FIXED_INFO_SIZE <= bytes.len()
        } else {
            &&& off <= bytes.len()
            &&& PREFIX_SIZE + AUXILIARY_HEADER_SIZE <= bytes.len()
            &&& PREFIX_SIZE + AUXILIARY_HEADER_SIZE + auxiliary_length_of(bytes) <= bytes.len()
        }
    }
}

proof fn lemma_pow256_bound(n: nat)
    requires
        n <= 8,
    ensures
        pow256(n) <= pow256(8),
        pow256(8) == 0x1_0000_0000_0000_0000,
    decreases 8 - n,
{
    reveal_with_fuel(pow256, 9);
    if n < 8 {
        lemma_pow256_bound(n + 1);
    }
}

/// Reads the Info-block offset of the Prefix block.
fn read_detail_offset(bytes: &Vec<u8>) -> (r: u128)
    requires
        bytes@.len() >= 8,
    ensures
        r == detail_offset_of(bytes@),
        r < 0x1_0000_0000_0000_0000,
{
    let mut acc: u128 = 0;
    let mut i: usize = 8;
    while i > 0
        invariant
            i <= 8,
            bytes@.len() >= 8,
            acc == le_value(bytes@.subrange(i as int, 8)),
            acc < pow256((8 - i) as nat),
        decreases i,
    {
        let ghost rest = bytes@.subrange(i as int, 8);
        let b = bytes[i - 1];
        proof {
            lemma_pow256_bound((8 - i) as nat);
            lemma_pow256_bound((8 - i + 1) as nat);
            assert(bytes@.subrange(i - 1, 8).drop_first() =~= rest);
            assert(pow256((8 - i + 1) as nat) == 256 * pow256((8 - i) as nat));
            assert(acc * 256 + b < 256 * pow256((8 - i) as nat)) by (nonlinear_arith)
                requires
                    acc < pow256((8 - i) as nat),
                    b < 256,
            ;
        }
        acc = acc * 256 + b as u128;
        i -= 1;
    }
    assert(bytes@.subrange(0, 8) =~= bytes@.subrange(i as int, 8));
    proof {
        lemma_pow256_bound(8);
    }
    acc
}

/// Whether the buffer holds a whole Prefix block whose Info block and record
/// section lie within the buffer, as `prefix_in_bounds` states.
pub fn check_prefix(bytes: &Vec<u8>) -> (r: bool)
    ensures
        r == prefix_in_bounds(bytes@),
{
    if bytes.len() < PREFIX_SIZE {
        return false;
    }
    let len = bytes.len() as u128;
    let v = bytes[VERSION_POSITION];
    let off = read_detail_offset(bytes);
    if v < WIDE_INFO_VERSION {
        off + NARROW_INFO_SIZE as u128 <= len
    } else if v < FIXED_DETAIL_VERSION {
        off + WIDE_INFO_SIZE as u128 <= len
    } else if v == FIXED_DETAIL_VERSION {
        PREFIX_SIZE as u128 + FIXED_INFO_SIZE as u128 <= len
    } else {
        if off > len || bytes.len() < PREFIX_SIZE + AUXILIARY_HEADER_SIZE {
            return false;
        }
        let aux = bytes[PREFIX_SIZE + 1] as u128 + 256 * bytes[PREFIX_SIZE + 2] as u128;
        PREFIX_SIZE as u128 + AUXILIARY_HEADER_SIZE as u128 + aux <= len
    }
}

} // verus!
