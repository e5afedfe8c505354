use vstd::prelude::*;

verus! {

/// The little-endian 16-bit number at `at`.
pub open spec fn le16(b: Seq<u8>, at: int) -> int {
    b[at] + 0x100 * b[at + 1]
}

/// The little-endian 32-bit number at `at`.
pub open spec fn le32(b: Seq<u8>, at: int) -> int {
    le16(b, at) + 0x1_0000 * le16(b, at + 2)
}

/// The little-endian 64-bit number at `at`.
pub open spec fn le64(b: Seq<u8>, at: int) -> int {
    le32(b, at) + 0x1_0000_0000 * le32(b, at + 4)
}

/// The big-endian 16-bit number at `at`.
pub open spec fn be16(b: Seq<u8>, at: int) -> int {
    0x100 * b[at] + b[at + 1]
}

/// The big-endian 32-bit number at `at`.
pub open spec fn be32(b: Seq<u8>, at: int) -> int {
    0x1_0000 * be16(b, at) + be16(b, at + 2)
}

/// The big-endian 64-bit number at `at`.
pub open spec fn be64(b: Seq<u8>, at: int) -> int {
    0x1_0000_0000 * be32(b, at) + be32(b, at + 4)
}

/// The GUID whose 16-byte form starts at `at`: its first three fields
/// little-endian, its last eight bytes in order.
pub open spec fn guid_at(b: Seq<u8>, at: int) -> int {
    le32(b, at) * 0x1_0000_0000_0000_0000_0000_0000 + le16(b, at + 4) * 0x1_0000_0000_0000_0000_0000
        + le16(b, at + 6) * 0x1_0000_0000_0000_0000 + be64(b, at + 8)
}

/// The `n` little-endian 16-bit code units that start at `at`.
pub open spec fn units_at(b: Seq<u8>, at: int, n: int) -> Seq<u16> {
    Seq::new(n as nat, |k: int| le16(b, at + 2 * k) as u16)
}

pub fn read_u16(b: &[u8], at: usize) -> (r: u16)
    requires
        at + 2 <= b.len(),
    ensures
        r == le16(b@, at as int),
{
    b[at] as u16 + (b[at + 1] as u16) * 0x100
}

pub fn read_u32(b: &[u8], at: usize) -> (r: u32)
    requires
        at + 4 <= b.len(),
    ensures
        r == le32(b@, at as int),
{
    read_u16(b, at) as u32 + (read_u16(b, at + 2) as u32) * 0x1_0000
}

pub fn read_u64(b: &[u8], at: usize) -> (r: u64)
    requires
        at + 8 <= b.len(),
    ensures
        r == le64(b@, at as int),
{
    read_u32(b, at) as u64 + (read_u32(b, at + 4) as u64) * 0x1_0000_0000
}

fn read_be_u32(b: &[u8], at: usize) -> (r: u32)
    requires
        at + 4 <= b.len(),
    ensures
        r == be32(b@, at as int),
{
    let hi = (b[at] as u32) * 0x100 + b[at + 1] as u32;
    let lo = (b[at + 2] as u32) * 0x100 + b[at + 3] as u32;
    hi * 0x1_0000 + lo
}

pub fn read_guid(b: &[u8], at: usize) -> (r: u128)
    requires
        at + 16 <= b.len(),
    ensures
        r == guid_at(b@, at as int),
{
    let d1 = read_u32(b, at) as u128;
    let d2 = read_u16(b, at + 4) as u128;
    let d3 = read_u16(b, at + 6) as u128;
    let d4 = (read_be_u32(b, at + 8) as u128) * 0x1_0000_0000 + read_be_u32(b, at + 12) as u128;
    d1 * 0x1_0000_0000_0000_0000_0000_0000 + d2 * 0x1_0000_0000_0000_0000_0000 + d3
        * 0x1_0000_0000_0000_0000 + d4
}

/// A copy of the `n` bytes that start at `at`.
pub fn copy_bytes(b: &[u8], at: usize, n: usize) -> (r: Vec<u8>)
    requires
        at + n <= b.len(),
    ensures
        r@ == b@.subrange(at as int, at + n),
{
    let mut r: Vec<u8> = Vec::new();
    let mut k: usize = 0;
    while k < n
        invariant
            at + n <= b.len(),
            k <= n,
            r@ == b@.subrange(at as int, at + k),
        decreases n - k,
    {
        r.push(b[at + k]);
        k += 1;
        assert(r@ =~= b@.subrange(at as int, at + k));
    }
    r
}

/// The `n` little-endian 16-bit code units that start at `at`.
pub fn read_units(b: &[u8], at: usize, n: usize) -> (r: Vec<u16>)
    requires
        at + 2 * n <= b.len(),
    ensures
        r@ == units_at(b@, at as int, n as int),
{
    let mut r: Vec<u16> = Vec::new();
    let mut k: usize = 0;
    while k < n
        invariant
            at + 2 * n <= b.len(),
            k <= n,
            r@ =~= units_at(b@, at as int, k as int),
        decreases n - k,
    {
        let u = read_u16(b, at + 2 * k);
        r.push(u);
        k += 1;
        assert(r@ =~= units_at(b@, at as int, k as int));
    }
    r
}

} // verus!
