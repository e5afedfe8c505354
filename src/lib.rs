use vstd::prelude::*;

pub mod attributes;
pub mod bytes;
pub mod edk2;
pub mod laws;
pub mod status;
pub mod ucs2;
pub mod varstore_shim;
pub mod varstore;

pub use attributes::EfiAttributes;
pub use status::EfiStatus;

verus! {

/// A GUID, held as the 128-bit number that its registry form
/// `xxxxxxxx-xxxx-xxxx-xxxx-xxxxxxxxxxxx` spells out in hexadecimal.
pub type Guid = u128;

} // verus!
