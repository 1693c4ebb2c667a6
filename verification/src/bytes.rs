//! Little-endian fixed-width integer encodings.
//!
//! The wire format of the batch envelope and of the digest notification uses
//! fixed-width little-endian integers: a 4-byte tag for a tagged union's
//! variant and an 8-byte length for a sequence.

use vstd::prelude::*;

verus! {

/// The four little-endian bytes of a 32-bit value.
pub open spec fn le_bytes_4(n: nat) -> Seq<u8> {
    seq![
        (n % 256) as u8,
        ((n / 256) % 256) as u8,
        ((n / 65536) % 256) as u8,
        ((n / 16777216) % 256) as u8,
    ]
}

/// The eight little-endian bytes of a 64-bit value.
pub open spec fn le_bytes_8(n: nat) -> Seq<u8> {
    seq![
        (n % 256) as u8,
        ((n / 256) % 256) as u8,
        ((n / 65536) % 256) as u8,
        ((n / 16777216) % 256) as u8,
        ((n / 4294967296) % 256) as u8,
        ((n / 1099511627776) % 256) as u8,
        ((n / 281474976710656) % 256) as u8,
        ((n / 72057594037927936) % 256) as u8,
    ]
}

/// The value of four bytes read as a little-endian 32-bit integer.
pub open spec fn le_val_4(s: Seq<u8>) -> nat
    recommends
        s.len() >= 4,
{
    (s[0] as nat) + (s[1] as nat) * 256 + (s[2] as nat) * 65536 + (s[3] as nat) * 16777216
}

/// The value of eight bytes read as a little-endian 64-bit integer.
pub open spec fn le_val_8(s: Seq<u8>) -> nat
    recommends
        s.len() >= 8,
{
    (s[0] as nat) + (s[1] as nat) * 256 + (s[2] as nat) * 65536 + (s[3] as nat) * 16777216
        + (s[4] as nat) * 4294967296 + (s[5] as nat) * 1099511627776
        + (s[6] as nat) * 281474976710656 + (s[7] as nat) * 72057594037927936
}

/// Encode a 32-bit value as its four little-endian bytes.
pub fn u32_le_bytes(n: u32) -> (r: Vec<u8>)
    ensures
        r@ == le_bytes_4(n as nat),
{
    let r = vec![
        (n % 256) as u8,
        ((n / 256) % 256) as u8,
        ((n / 65536) % 256) as u8,
        ((n / 16777216) % 256) as u8,
    ];
    proof {
        assert(r@ =~= le_bytes_4(n as nat));
    }
    r
}

/// Read the 32-bit little-endian value stored at `pos`.
pub fn read_u32_le(bytes: &Vec<u8>, pos: usize) -> (r: u32)
    requires
        pos + 4 <= bytes@.len(),
    ensures
        r as nat == le_val_4(bytes@.subrange(pos as int, pos as int + 4)),
{
    let n = bytes.len();
    proof {
        assert(pos + 4 <= n);
    }
    let b0 = bytes[pos] as u32;
    let b1 = bytes[pos + 1] as u32;
    let b2 = bytes[pos + 2] as u32;
    let b3 = bytes[pos + 3] as u32;
    b0 + b1 * 256 + b2 * 65536 + b3 * 16777216
}

/// Read the 64-bit little-endian value stored at `pos`.
pub fn read_u64_le(bytes: &Vec<u8>, pos: usize) -> (r: u64)
    requires
        pos + 8 <= bytes@.len(),
    ensures
        r as nat == le_val_8(bytes@.subrange(pos as int, pos as int + 8)),
{
    let n = bytes.len();
    proof {
        assert(pos + 8 <= n);
    }
    let b0 = bytes[pos] as u64;
    let b1 = bytes[pos + 1] as u64;
    let b2 = bytes[pos + 2] as u64;
    let b3 = bytes[pos + 3] as u64;
    let b4 = bytes[pos + 4] as u64;
    let b5 = bytes[pos + 5] as u64;
    let b6 = bytes[pos + 6] as u64;
    let b7 = bytes[pos + 7] as u64;
    b0 + b1 * 256 + b2 * 65536 + b3 * 16777216 + b4 * 4294967296 + b5 * 1099511627776
        + b6 * 281474976710656 + b7 * 72057594037927936
}

/// Encode a 64-bit value as its eight little-endian bytes.
pub fn u64_le_bytes(n: u64) -> (r: Vec<u8>)
    ensures
        r@ == le_bytes_8(n as nat),
{
    let r = vec![
        (n % 256) as u8,
        ((n / 256) % 256) as u8,
        ((n / 65536) % 256) as u8,
        ((n / 16777216) % 256) as u8,
        ((n / 4294967296) % 256) as u8,
        ((n / 1099511627776) % 256) as u8,
        ((n / 281474976710656) % 256) as u8,
        ((n / 72057594037927936) % 256) as u8,
    ];
    proof {
        assert(r@ =~= le_bytes_8(n as nat));
    }
    r
}

/// Copy a byte vector element by element.
pub fn copy_bytes(v: &Vec<u8>) -> (r: Vec<u8>)
    ensures
        r@ == v@,
{
    let mut r: Vec<u8> = Vec::new();
    let mut i: usize = 0;
    while i < v.len()
        invariant
            i <= v@.len(),
            r@ == v@.take(i as int),
        decreases v@.len() - i,
    {
        r.push(v[i]);
        proof {
            assert(r@ =~= v@.take(i as int + 1));
        }
        i = i + 1;
    }
    proof {
        assert(v@.take(v@.len() as int) =~= v@);
    }
    r
}

} // verus!
