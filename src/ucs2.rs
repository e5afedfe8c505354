use vstd::prelude::*;

use uefi::CString16;

verus! {

/// The code units `units` spell the characters `s`, one unit per character.
pub open spec fn units_spell(units: Seq<u16>, s: Seq<char>) -> bool {
    &&& units.len() == s.len()
    &&& forall|i: int| 0 <= i < s.len() ==> units[i] as u32 == #[trigger] s[i] as u32
}

/// `s` can be written as a NUL-terminated UCS-2 string: each character lies
/// in the Basic Multilingual Plane and none is NUL.
pub open spec fn ucs2_encodable(s: Seq<char>) -> bool {
    forall|i: int| 0 <= i < s.len() ==> 0 < #[trigger] s[i] as u32 && (s[i] as u32) < 0x10000
}

/// `units` is a NUL-terminated UCS-2 string: the last unit is NUL, and every
/// other one is neither NUL nor a surrogate.
pub open spec fn ucs2_terminated(units: Seq<u16>) -> bool {
    &&& units.len() > 0
    &&& units.last() == 0
    &&& forall|i: int|
        0 <= i < units.len() - 1 ==> #[trigger] units[i] != 0 && !(0xd800 <= units[i] <= 0xdfff)
}

/// Relies on uefi's `CString16::try_from(&str)`: it accepts exactly the text
/// that `ucs2_encodable` describes, and then holds one code unit per
/// character followed by a NUL.
#[verifier::external_body]
pub(crate) fn ucs2_with_nul(s: &str) -> (r: Option<Vec<u16>>)
    ensures
        r is Some <==> ucs2_encodable(s@),
        r matches Some(u) ==> u@.len() == s@.len() + 1 && u@.last() == 0 && units_spell(
            u@.drop_last(),
            s@,
        ),
{
    match CString16::try_from(s) {
        Ok(c) => Some(c.to_u16_slice_with_nul().to_vec()),
        Err(_) => None,
    }
}

/// Relies on uefi's `CString16::try_from(Vec<u16>)`, which accepts exactly a
/// NUL-terminated UCS-2 string, and on `String::from(&CStr16)`, which turns
/// each code unit before the NUL into the character of that value.
#[verifier::external_body]
pub(crate) fn string_from_ucs2(units: Vec<u16>) -> (r: Option<String>)
    ensures
        r is Some <==> ucs2_terminated(units@),
        r matches Some(s) ==> units_spell(units@.drop_last(), s@),
{
    match CString16::try_from(units) {
        Ok(c) => Some(String::from(&*c)),
        Err(_) => None,
    }
}

} // verus!
