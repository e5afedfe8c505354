use vstd::prelude::*;
use vstd::slice::slice_to_vec;

use crate::attributes::EfiAttributes;
use crate::status::EfiStatus;
use crate::ucs2::{ucs2_encodable, ucs2_with_nul};
use crate::varstore::{
    get_result, next_result, set_result, stored_attr, EfiVariable, NextModel, NextResponse,
    VariableModel, Varstore,
};
use crate::Guid;

verus! {

/// The size in bytes of `name` written as a NUL-terminated UCS-2 string.
pub open spec fn ucs2_size(name: Seq<char>) -> nat {
    2 * (name.len() + 1)
}

impl Varstore {
    /// The UEFI SetVariable service on plain values.
    pub fn set_variable(
        &mut self,
        name: String,
        vendor_guid: Guid,
        data: &[u8],
        attributes: EfiAttributes,
    ) -> (r: Result<(), EfiStatus>)
        requires
            old(self).wf(),
        ensures
            final(self).wf(),
            ({
                let v = VariableModel {
                    name: name@,
                    guid: vendor_guid,
                    data: data@,
                    attr: attributes@,
                };
                r == set_result(old(self)@, v).0 && final(self)@ == set_result(old(self)@, v).1
            }),
    {
        let var = EfiVariable::new(name, vendor_guid, slice_to_vec(data), attributes);
        self.request_set(&var)
    }

    /// The UEFI GetVariable service on plain values. The attributes, when
    /// asked for, come without `APPEND_WRITE`. A `data_size` below the
    /// variable's length gets that length and `BufferTooSmall`; otherwise
    /// `data`, which must be `data_size` long, gets the variable's bytes at
    /// its start, and `data_size` their number.
    pub fn get_variable(
        &self,
        name: &String,
        vendor_guid: &Guid,
        attributes: Option<&mut EfiAttributes>,
        data: Option<&mut [u8]>,
        data_size: &mut usize,
    ) -> (r: EfiStatus)
        requires
            self.wf(),
        ensures
            match get_result(self@, name@, *vendor_guid) {
                Err(e) => {
                    &&& r == e
                    &&& *final(data_size) == *old(data_size)
                    &&& (attributes matches Some(a) ==> *final(a) == *a)
                    &&& (data matches Some(d) ==> final(d)@ == d@)
                },
                Ok(v) => {
                    &&& (attributes matches Some(a) ==> final(a)@ == stored_attr(v.attr))
                    &&& if *old(data_size) < v.data.len() {
                        &&& r == EfiStatus::BufferTooSmall
                        &&& *final(data_size) == v.data.len()
                        &&& (data matches Some(d) ==> final(d)@ == d@)
                    } else {
                        match data {
                            None => r == EfiStatus::InvalidParameter && *final(data_size)
                                == *old(data_size),
                            Some(d) => if d@.len() != *old(data_size) {
                                &&& r == EfiStatus::InvalidParameter
                                &&& *final(data_size) == *old(data_size)
                                &&& final(d)@ == d@
                            } else {
                                &&& r == EfiStatus::Success
                                &&& *final(data_size) == v.data.len()
                                &&& final(d)@ == v.data + d@.skip(v.data.len() as int)
                            },
                        }
                    }
                },
            },
    {
        let var = match self.request_get(name, *vendor_guid) {
            Ok(var) => var,
            Err(e) => return e,
        };
        if let Some(a) = attributes {
            let mut shown = var.attr;
            // APPEND_WRITE is never reported back.
            shown.remove(EfiAttributes::APPEND_WRITE);
            *a = shown;
        }
        let len = var.data.len();
        if *data_size < len {
            *data_size = len;
            return EfiStatus::BufferTooSmall;
        }
        let buf = match data {
            Some(buf) => buf,
            None => return EfiStatus::InvalidParameter,
        };
        if buf.len() != *data_size {
            return EfiStatus::InvalidParameter;
        }
        let ghost start = buf@;
        let mut i: usize = 0;
        while i < len
            invariant
                len == var.data@.len(),
                len <= buf@.len(),
                start.len() == buf@.len(),
                i <= len,
                forall|j: int| 0 <= j < i ==> buf@[j] == var.data@[j],
                forall|j: int| i <= j < buf@.len() ==> buf@[j] == start[j],
            decreases len - i,
        {
            buf[i] = var.data[i];
            i += 1;
        }
        assert(buf@ =~= var.data@ + start.skip(len as int));
        *data_size = len;
        EfiStatus::Success
    }

    /// The UEFI GetNextVariableName service on plain values. On success the
    /// name and namespace become those of the next variable, and `name_size`
    /// the size of its name as a NUL-terminated UCS-2 string; a `name_size`
    /// below that gets the size and `BufferTooSmall`. The end of the store
    /// is `NotFound`, an unknown cursor `InvalidParameter`, and so is a next
    /// name that UCS-2 cannot hold or whose size overflows `usize`.
    pub fn get_next_variable(
        &self,
        name: &mut String,
        name_size: &mut usize,
        vendor_guid: &mut Guid,
    ) -> (r: EfiStatus)
        requires
            self.wf(),
        ensures
            match next_result(self@, old(name)@, *old(vendor_guid)) {
                NextModel::Found(v) => if !ucs2_encodable(v.name) || ucs2_size(v.name) > usize::MAX {
                    &&& r == EfiStatus::InvalidParameter
                    &&& final(name)@ == old(name)@
                    &&& *final(name_size) == *old(name_size)
                    &&& *final(vendor_guid) == *old(vendor_guid)
                } else if *old(name_size) < ucs2_size(v.name) {
                    &&& r == EfiStatus::BufferTooSmall
                    &&& *final(name_size) == ucs2_size(v.name)
                    &&& final(name)@ == old(name)@
                    &&& *final(vendor_guid) == *old(vendor_guid)
                } else {
                    &&& r == EfiStatus::Success
                    &&& *final(name_size) == ucs2_size(v.name)
                    &&& final(name)@ == v.name
                    &&& *final(vendor_guid) == v.guid
                },
                NextModel::EndReached => {
                    &&& r == EfiStatus::NotFound
                    &&& final(name)@ == old(name)@
                    &&& *final(name_size) == *old(name_size)
                    &&& *final(vendor_guid) == *old(vendor_guid)
                },
                NextModel::Invalid => {
                    &&& r == EfiStatus::InvalidParameter
                    &&& final(name)@ == old(name)@
                    &&& *final(name_size) == *old(name_size)
                    &&& *final(vendor_guid) == *old(vendor_guid)
                },
            },
    {
        let next = self.request_get_next(name.clone(), *vendor_guid);
        match next {
            NextResponse::Found(var) => {
                let units = match ucs2_with_nul(var.name.as_str()) {
                    Some(units) => units,
                    None => return EfiStatus::InvalidParameter,
                };
                let new_size = match units.len().checked_mul(2) {
                    Some(n) => n,
                    None => return EfiStatus::InvalidParameter,
                };
                if *name_size < new_size {
                    *name_size = new_size;
                    return EfiStatus::BufferTooSmall;
                }
                *name = var.name.clone();
                *name_size = new_size;
                *vendor_guid = var.guid;
                EfiStatus::Success
            },
            NextResponse::EndReached => EfiStatus::NotFound,
            NextResponse::Invalid => EfiStatus::InvalidParameter,
        }
    }
}

} // verus!
