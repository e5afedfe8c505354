use vstd::prelude::*;

verus! {

/// `bits` holds every flag of `mask`.
pub open spec fn has_flags(bits: u32, mask: u32) -> bool {
    bits & mask == mask
}

/// A set of variable attribute flags, kept as the attribute word of the
/// UEFI variable services. Only the bits of `EfiAttributes::ALL` are ever set.
#[derive(Clone, Copy, Debug, PartialEq, Eq, Structural)]
pub struct EfiAttributes {
    bits: u32,
}

impl View for EfiAttributes {
    type V = u32;

    closed spec fn view(&self) -> u32 {
        self.bits
    }
}

impl EfiAttributes {
    pub const NON_VOLATILE: u32 = 0x01;
    pub const BOOTSERVICE_ACCESS: u32 = 0x02;
    pub const RUNTIME_ACCESS: u32 = 0x04;
    pub const HARDWARE_ERROR_RECORD: u32 = 0x08;
    pub const AUTHENTICATED_WRITE_ACCESS: u32 = 0x10;
    pub const TIME_BASED_AUTHENTICATED_WRITE_ACCESS: u32 = 0x20;
    pub const APPEND_WRITE: u32 = 0x40;
    pub const ENHANCED_AUTHENTICATED_ACCESS: u32 = 0x80;
    /// Every defined flag.
    pub const ALL: u32 = 0xff;

    pub fn empty() -> (r: Self)
        ensures
            r@ == 0,
    {
        EfiAttributes { bits: 0 }
    }

    /// The set with exactly the given bits, or `None` when a bit outside
    /// `ALL` is set.
    pub fn from_bits(bits: u32) -> (r: Option<Self>)
        ensures
            r is Some <==> bits & !Self::ALL == 0,
            r matches Some(a) ==> a@ == bits,
    {
        if bits & !Self::ALL == 0 {
            Some(EfiAttributes { bits })
        } else {
            None
        }
    }

    /// The set of the defined flags among `bits`.
    pub fn from_bits_truncate(bits: u32) -> (r: Self)
        ensures
            r@ == bits & Self::ALL,
    {
        EfiAttributes { bits: bits & Self::ALL }
    }

    pub fn bits(&self) -> (r: u32)
        ensures
            r == self@,
    {
        self.bits
    }

    /// Every flag of `flags` is in the set.
    pub fn contains(&self, flags: u32) -> (r: bool)
        ensures
            r == has_flags(self@, flags),
    {
        self.bits & flags == flags
    }

    /// Some flag of `flags` is in the set.
    pub fn intersects(&self, flags: u32) -> (r: bool)
        ensures
            r == (self@ & flags != 0),
    {
        self.bits & flags != 0
    }

    /// Adds the defined flags among `flags`.
    pub fn insert(&mut self, flags: u32)
        ensures
            final(self)@ == old(self)@ | (flags & Self::ALL),
    {
        self.bits = self.bits | (flags & Self::ALL);
    }

    /// Takes the flags of `flags` out of the set.
    pub fn remove(&mut self, flags: u32)
        ensures
            final(self)@ == old(self)@ & !flags,
    {
        self.bits = self.bits & !flags;
    }

    /// The set together with the defined flags among `flags`.
    pub fn union(&self, flags: u32) -> (r: Self)
        ensures
            r@ == self@ | (flags & Self::ALL),
    {
        EfiAttributes { bits: self.bits | (flags & Self::ALL) }
    }

    /// The defined flags that are not in the set.
    pub fn complement(&self) -> (r: Self)
        ensures
            r@ == !self@ & Self::ALL,
    {
        EfiAttributes { bits: !self.bits & Self::ALL }
    }
}

/// A set holds two flag sets together exactly when it holds each of them.
pub proof fn lemma_has_flags_union(bits: u32, x: u32, y: u32)
    ensures
        has_flags(bits, x | y) == (has_flags(bits, x) && has_flags(bits, y)),
{
    assert((bits & (x | y) == (x | y)) == ((bits & x == x) && (bits & y == y))) by (bit_vector);
}

/// Taking `APPEND_WRITE` out changes no other flag, and changes nothing
/// where it was not in.
pub proof fn lemma_remove_append(bits: u32)
    ensures
        !has_flags(bits, EfiAttributes::APPEND_WRITE) ==> bits & !EfiAttributes::APPEND_WRITE
            == bits,
        has_flags(bits & !EfiAttributes::APPEND_WRITE, EfiAttributes::RUNTIME_ACCESS) == has_flags(
            bits,
            EfiAttributes::RUNTIME_ACCESS,
        ),
{
    assert(!(bits & 0x40u32 == 0x40u32) ==> bits & !0x40u32 == bits) by (bit_vector);
    assert(((bits & !0x40u32) & 4u32 == 4u32) == (bits & 4u32 == 4u32)) by (bit_vector);
}

} // verus!
