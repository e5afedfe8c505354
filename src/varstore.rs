use vstd::prelude::*;
use vstd::utf8::encode_utf8;

use crate::attributes::{has_flags, EfiAttributes};
use crate::status::EfiStatus;
use crate::Guid;

verus! {

/// The namespace of the variables that the UEFI specification defines.
pub const DEFAULT_NAMESPACE_GUID: Guid = 0x8be4df61_93ca_11d2_aa0d_00e098032b8c;

/// The namespace that `Varstore::insert_new` files its variables under.
pub const TESTING_GUID: Guid = 0xa634888c_e878_4151_aef2_54135322fd0b;

/// Ceilings of a store made by `Varstore::new`.
pub const DEFAULT_MAX_NAME_LENGTH: usize = 10000;
pub const DEFAULT_MAX_DATA_LENGTH: usize = 50000;

/// A variable as a mathematical value.
pub ghost struct VariableModel {
    pub name: Seq<char>,
    pub guid: Guid,
    pub data: Seq<u8>,
    pub attr: u32,
}

/// A store as a mathematical value: its records in enumeration order, whether
/// boot services have been left, and its ceilings.
pub ghost struct VarstoreModel {
    pub records: Seq<VariableModel>,
    pub exited: bool,
    pub max_name: nat,
    pub max_data: nat,
}

/// What `Varstore::request_get_next` answers, as a mathematical value.
pub ghost enum NextModel {
    Found(VariableModel),
    EndReached,
    Invalid,
}

/// The length of a name, counted in bytes of its UTF-8 form, as `str::len`
/// reports it.
pub open spec fn name_len(name: Seq<char>) -> usize {
    encode_utf8(name).len() as usize
}

pub open spec fn has_identity(v: VariableModel, name: Seq<char>, guid: Guid) -> bool {
    v.name == name && v.guid == guid
}

/// No two records share a name and a namespace.
pub open spec fn identities_unique(records: Seq<VariableModel>) -> bool {
    forall|i: int, j: int|
        0 <= i < j < records.len() ==> !has_identity(records[i], records[j].name, records[j].guid)
}

/// Some record has this name and namespace.
pub open spec fn holds(records: Seq<VariableModel>, name: Seq<char>, guid: Guid) -> bool {
    exists|i: int| 0 <= i < records.len() && has_identity(#[trigger] records[i], name, guid)
}

/// The position of the record with this name and namespace (meaningful where
/// `holds` and `identities_unique` are true).
pub open spec fn index_of(records: Seq<VariableModel>, name: Seq<char>, guid: Guid) -> int {
    choose|i: int| 0 <= i < records.len() && has_identity(#[trigger] records[i], name, guid)
}

/// The attributes that a record is stored with: the write-intent flag
/// `APPEND_WRITE` is never kept.
pub open spec fn stored_attr(attr: u32) -> u32 {
    attr & !EfiAttributes::APPEND_WRITE
}

/// The error that `set` reports for `v`, checked in this order, or `None`
/// when `v` is accepted.
pub open spec fn set_error(s: VarstoreModel, v: VariableModel) -> Option<EfiStatus> {
    let a = v.attr;
    if name_len(v.name) > s.max_name {
        Some(EfiStatus::InvalidParameter)
    } else if v.data.len() > s.max_data {
        Some(EfiStatus::InvalidParameter)
    } else if has_flags(a, EfiAttributes::HARDWARE_ERROR_RECORD) {
        Some(EfiStatus::InvalidParameter)
    } else if has_flags(a, EfiAttributes::AUTHENTICATED_WRITE_ACCESS) {
        Some(EfiStatus::Unsupported)
    } else if has_flags(
        a,
        EfiAttributes::TIME_BASED_AUTHENTICATED_WRITE_ACCESS
            | EfiAttributes::ENHANCED_AUTHENTICATED_ACCESS,
    ) {
        Some(EfiStatus::SecurityViolation)
    } else if has_flags(a, EfiAttributes::ENHANCED_AUTHENTICATED_ACCESS) {
        Some(EfiStatus::Unsupported)
    } else if has_flags(a, EfiAttributes::TIME_BASED_AUTHENTICATED_WRITE_ACCESS) {
        Some(EfiStatus::Unsupported)
    } else if has_flags(a, EfiAttributes::RUNTIME_ACCESS) && !has_flags(
        a,
        EfiAttributes::BOOTSERVICE_ACCESS,
    ) {
        Some(EfiStatus::InvalidParameter)
    } else if holds(s.records, v.name, v.guid) && s.records[index_of(
        s.records,
        v.name,
        v.guid,
    )].attr != stored_attr(a) {
        Some(EfiStatus::InvalidParameter)
    } else if holds(s.records, v.name, v.guid) && s.exited && !has_flags(
        a,
        EfiAttributes::RUNTIME_ACCESS,
    ) {
        Some(EfiStatus::InvalidParameter)
    } else {
        None
    }
}

/// The records after an accepted `set` of `v`: an append joins the data (an
/// empty join changes nothing), an empty write to a present record deletes
/// it, any other write replaces the record or adds it at the end.
pub open spec fn set_records(s: VarstoreModel, v: VariableModel) -> Seq<VariableModel> {
    let stored = VariableModel { attr: stored_attr(v.attr), ..v };
    if holds(s.records, v.name, v.guid) {
        let i = index_of(s.records, v.name, v.guid);
        if has_flags(v.attr, EfiAttributes::APPEND_WRITE) {
            let joined = s.records[i].data + v.data;
            if joined.len() == 0 {
                s.records
            } else {
                s.records.update(i, VariableModel { data: joined, ..stored })
            }
        } else if v.data.len() == 0 {
            s.records.remove(i)
        } else {
            s.records.update(i, stored)
        }
    } else {
        s.records.push(stored)
    }
}

/// What `set` of `v` returns, and the store after it: a rejected call leaves
/// the store as it was.
pub open spec fn set_result(s: VarstoreModel, v: VariableModel) -> (Result<(), EfiStatus>, VarstoreModel) {
    match set_error(s, v) {
        Some(e) => (Err(e), s),
        None => (Ok(()), VarstoreModel { records: set_records(s, v), ..s }),
    }
}

/// What `get` returns: a record without `RUNTIME_ACCESS` is not found once
/// boot services have been left, and neither is the empty name.
pub open spec fn get_result(s: VarstoreModel, name: Seq<char>, guid: Guid) -> Result<VariableModel, EfiStatus> {
    if name.len() == 0 || !holds(s.records, name, guid) {
        Err(EfiStatus::NotFound)
    } else {
        let v = s.records[index_of(s.records, name, guid)];
        if s.exited && !has_flags(v.attr, EfiAttributes::RUNTIME_ACCESS) {
            Err(EfiStatus::NotFound)
        } else {
            Ok(v)
        }
    }
}

/// What `get_next` returns: the empty name starts at the first record, a
/// name that no record has is an invalid cursor.
pub open spec fn next_result(s: VarstoreModel, name: Seq<char>, guid: Guid) -> NextModel {
    if name.len() == 0 {
        if s.records.len() == 0 {
            NextModel::EndReached
        } else {
            NextModel::Found(s.records[0])
        }
    } else if !holds(s.records, name, guid) {
        NextModel::Invalid
    } else {
        let i = index_of(s.records, name, guid);
        if i + 1 < s.records.len() {
            NextModel::Found(s.records[i + 1])
        } else {
            NextModel::EndReached
        }
    }
}

/// In a store whose identities are unique, the record at `i` is the one
/// that `index_of` names.
pub proof fn lemma_index_of_unique(records: Seq<VariableModel>, name: Seq<char>, guid: Guid, i: int)
    requires
        identities_unique(records),
        0 <= i < records.len(),
        has_identity(records[i], name, guid),
    ensures
        holds(records, name, guid),
        index_of(records, name, guid) == i,
{
    assert(has_identity(records[i], name, guid));
    let j = index_of(records, name, guid);
    if j != i {
        if j < i {
            assert(!has_identity(records[j], records[i].name, records[i].guid));
        } else {
            assert(!has_identity(records[i], records[j].name, records[j].guid));
        }
    }
}

/// A UEFI variable: a named, namespaced, attribute-tagged byte string.
#[derive(Clone, Debug, PartialEq)]
pub struct EfiVariable {
    pub name: String,
    pub guid: Guid,
    pub data: Vec<u8>,
    pub attr: EfiAttributes,
}

impl View for EfiVariable {
    type V = VariableModel;

    open spec fn view(&self) -> VariableModel {
        VariableModel { name: self.name@, guid: self.guid, data: self.data@, attr: self.attr@ }
    }
}

impl EfiVariable {
    pub fn new(name: String, guid: Guid, data: Vec<u8>, attr: EfiAttributes) -> (r: EfiVariable)
        ensures
            r@ == (VariableModel { name: name@, guid, data: data@, attr: attr@ }),
    {
        EfiVariable { name, guid, data, attr }
    }
}

/// The in-memory variable store.
#[derive(Debug)]
pub struct Varstore {
    variables: Vec<EfiVariable>,
    bootservices_exited: bool,
    max_data_length: usize,
    max_name_length: usize,
}

impl View for Varstore {
    type V = VarstoreModel;

    closed spec fn view(&self) -> VarstoreModel {
        VarstoreModel {
            records: self.variables@.map_values(|v: EfiVariable| v@),
            exited: self.bootservices_exited,
            max_name: self.max_name_length as nat,
            max_data: self.max_data_length as nat,
        }
    }
}

impl Varstore {
    /// The store's invariant: no two records share an identity.
    pub open spec fn wf(&self) -> bool {
        identities_unique(self@.records)
    }

    /// An empty store with the default ceilings.
    pub fn new() -> (r: Varstore)
        ensures
            r.wf(),
            r@.records.len() == 0,
            !r@.exited,
            r@.max_name == DEFAULT_MAX_NAME_LENGTH,
            r@.max_data == DEFAULT_MAX_DATA_LENGTH,
    {
        Varstore::with_limits(DEFAULT_MAX_NAME_LENGTH, DEFAULT_MAX_DATA_LENGTH)
    }

    /// An empty store with the given ceilings on name and data length.
    pub fn with_limits(max_name: usize, max_data: usize) -> (r: Varstore)
        ensures
            r.wf(),
            r@.records.len() == 0,
            !r@.exited,
            r@.max_name == max_name,
            r@.max_data == max_data,
    {
        let r = Varstore {
            variables: Vec::new(),
            bootservices_exited: false,
            max_data_length: max_data,
            max_name_length: max_name,
        };
        assert(r@.records =~= Seq::<VariableModel>::empty());
        r
    }

    /// The position of the record with this name and namespace.
    fn get_index(&self, name: &String, guid: Guid) -> (r: Option<usize>)
        requires
            self.wf(),
        ensures
            r is None <==> !holds(self@.records, name@, guid),
            r matches Some(i) ==> i < self@.records.len() && i == index_of(
                self@.records,
                name@,
                guid,
            ),
    {
        let ghost recs = self@.records;
        let mut i: usize = 0;
        while i < self.variables.len()
            invariant
                self.wf(),
                recs == self@.records,
                recs.len() == self.variables@.len(),
                i <= self.variables@.len(),
                forall|j: int| 0 <= j < i ==> !has_identity(#[trigger] recs[j], name@, guid),
            decreases self.variables.len() - i,
        {
            assert(recs[i as int] == self.variables@[i as int]@);
            if self.variables[i].name == *name && self.variables[i].guid == guid {
                proof {
                    lemma_index_of_unique(recs, name@, guid, i as int);
                }
                return Some(i);
            }
            i += 1;
        }
        assert(!holds(recs, name@, guid)) by {
            assert forall|j: int| 0 <= j < recs.len() implies !has_identity(
                #[trigger] recs[j],
                name@,
                guid,
            ) by {}
        }
        None
    }

    /// Creates, replaces, appends to or deletes a variable, after the checks
    /// of the UEFI SetVariable service. A rejected call changes nothing.
    pub fn request_set(&mut self, var_in: &EfiVariable) -> (r: Result<(), EfiStatus>)
        requires
            old(self).wf(),
        ensures
            final(self).wf(),
            r == set_result(old(self)@, var_in@).0,
            final(self)@ == set_result(old(self)@, var_in@).1,
    {
        let attr = var_in.attr;
        if var_in.name.as_str().len() > self.max_name_length {
            return Err(EfiStatus::InvalidParameter);
        }
        if var_in.data.len() > self.max_data_length {
            return Err(EfiStatus::InvalidParameter);
        }
        if attr.contains(EfiAttributes::HARDWARE_ERROR_RECORD) {
            return Err(EfiStatus::InvalidParameter);
        }
        // Authenticated write access is deprecated and not supported.
        if attr.contains(EfiAttributes::AUTHENTICATED_WRITE_ACCESS) {
            return Err(EfiStatus::Unsupported);
        }
        // Only one kind of authentication may be asked for at a time.
        if attr.contains(
            EfiAttributes::TIME_BASED_AUTHENTICATED_WRITE_ACCESS
                | EfiAttributes::ENHANCED_AUTHENTICATED_ACCESS,
        ) {
            return Err(EfiStatus::SecurityViolation);
        }
        if attr.contains(EfiAttributes::ENHANCED_AUTHENTICATED_ACCESS) {
            return Err(EfiStatus::Unsupported);
        }
        if attr.contains(EfiAttributes::TIME_BASED_AUTHENTICATED_WRITE_ACCESS) {
            return Err(EfiStatus::Unsupported);
        }
        // Runtime access needs boot service access too.
        if attr.contains(EfiAttributes::RUNTIME_ACCESS) && !attr.contains(
            EfiAttributes::BOOTSERVICE_ACCESS,
        ) {
            return Err(EfiStatus::InvalidParameter);
        }
        let mut keep = attr;
        keep.remove(EfiAttributes::APPEND_WRITE);
        let ghost s = self@;
        let ghost v = var_in@;
        match self.get_index(&var_in.name, var_in.guid) {
            Some(i) => {
                assert(s.records[i as int] == self.variables@[i as int]@);
                if self.variables[i].attr.bits() != keep.bits() {
                    return Err(EfiStatus::InvalidParameter);
                }
                if self.bootservices_exited && !attr.contains(EfiAttributes::RUNTIME_ACCESS) {
                    return Err(EfiStatus::InvalidParameter);
                }
                if attr.contains(EfiAttributes::APPEND_WRITE) {
                    let mut joined = self.variables[i].data.clone();
                    let mut extra = var_in.data.clone();
                    assert(joined@ =~= s.records[i as int].data);
                    assert(extra@ =~= v.data);
                    joined.append(&mut extra);
                    // An append of nothing to nothing is no write, and no delete.
                    if joined.len() == 0 {
                        assert(self@ == set_result(s, v).1);
                        return Ok(());
                    }
                    let updated = EfiVariable {
                        name: var_in.name.clone(),
                        guid: var_in.guid,
                        data: joined,
                        attr: keep,
                    };
                    self.variables.set(i, updated);
                } else if var_in.data.len() == 0 {
                    self.variables.remove(i);
                } else {
                    let updated = EfiVariable {
                        name: var_in.name.clone(),
                        guid: var_in.guid,
                        data: var_in.data.clone(),
                        attr: keep,
                    };
                    assert(updated.data@ =~= v.data);
                    self.variables.set(i, updated);
                }
            },
            None => {
                let added = EfiVariable {
                    name: var_in.name.clone(),
                    guid: var_in.guid,
                    data: var_in.data.clone(),
                    attr: keep,
                };
                assert(added.data@ =~= v.data);
                self.variables.push(added);
            },
        }
        assert(self@.records =~= set_records(s, v));
        Ok(())
    }
}


/// The answer of `Varstore::request_get_next`.
#[derive(PartialEq, Debug, Clone)]
pub enum NextResponse<'a> {
    Found(&'a EfiVariable),
    EndReached,
    Invalid,
}

impl<'a> View for NextResponse<'a> {
    type V = NextModel;

    open spec fn view(&self) -> NextModel {
        match *self {
            NextResponse::Found(v) => NextModel::Found(v@),
            NextResponse::EndReached => NextModel::EndReached,
            NextResponse::Invalid => NextModel::Invalid,
        }
    }
}

impl<'a> NextResponse<'a> {
    pub fn is_found(&self) -> (r: bool)
        ensures
            r == (*self is Found),
    {
        match *self {
            NextResponse::Found(_) => true,
            _ => false,
        }
    }

    pub fn is_end(&self) -> (r: bool)
        ensures
            r == (*self is EndReached),
    {
        match *self {
            NextResponse::EndReached => true,
            _ => false,
        }
    }

    pub fn is_invalid(&self) -> (r: bool)
        ensures
            r == (*self is Invalid),
    {
        match *self {
            NextResponse::Invalid => true,
            _ => false,
        }
    }

    /// The variable that was found.
    pub fn unwrap(&self) -> (r: &'a EfiVariable)
        requires
            *self is Found,
        ensures
            *self == NextResponse::Found(r),
    {
        match *self {
            NextResponse::Found(var) => var,
            _ => {
                proof {
                    assert(false);
                }
                unreached()
            },
        }
    }
}

impl Varstore {
    /// Puts `var` into the store as it is, with no checks: it replaces the
    /// record of the same name and namespace, or else goes at the end.
    pub fn insert(&mut self, var: EfiVariable)
        requires
            old(self).wf(),
        ensures
            final(self).wf(),
            final(self)@ == (VarstoreModel {
                records: if holds(old(self)@.records, var@.name, var@.guid) {
                    old(self)@.records.update(
                        index_of(old(self)@.records, var@.name, var@.guid),
                        var@,
                    )
                } else {
                    old(self)@.records.push(var@)
                },
                ..old(self)@
            }),
    {
        let ghost s = self@;
        let ghost v = var@;
        match self.get_index(&var.name, var.guid) {
            Some(i) => {
                self.variables.set(i, var);
            },
            None => {
                self.variables.push(var);
            },
        }
        assert(self@.records =~= (if holds(s.records, v.name, v.guid) {
            s.records.update(index_of(s.records, v.name, v.guid), v)
        } else {
            s.records.push(v)
        }));
    }

    /// `insert` of a variable in the `TESTING_GUID` namespace.
    pub fn insert_new(&mut self, name: String, data: Vec<u8>, attr: EfiAttributes)
        requires
            old(self).wf(),
        ensures
            final(self).wf(),
            ({
                let v = VariableModel { name: name@, guid: TESTING_GUID, data: data@, attr: attr@ };
                final(self)@ == (VarstoreModel {
                    records: if holds(old(self)@.records, name@, TESTING_GUID) {
                        old(self)@.records.update(index_of(old(self)@.records, name@, TESTING_GUID), v)
                    } else {
                        old(self)@.records.push(v)
                    },
                    ..old(self)@
                })
            }),
    {
        self.insert(EfiVariable { name, guid: TESTING_GUID, data, attr });
    }

    /// Marks boot services as left. This cannot be undone.
    pub fn exit_boot_services(&mut self)
        ensures
            final(self)@ == (VarstoreModel { exited: true, ..old(self)@ }),
    {
        self.bootservices_exited = true;
    }

    pub fn bootservices_exited(&self) -> (r: bool)
        ensures
            r == self@.exited,
    {
        self.bootservices_exited
    }

    pub fn max_name_length(&self) -> (r: usize)
        ensures
            r == self@.max_name,
    {
        self.max_name_length
    }

    pub fn max_data_length(&self) -> (r: usize)
        ensures
            r == self@.max_data,
    {
        self.max_data_length
    }

    /// The number of records held, those hidden after boot services included.
    pub fn len(&self) -> (r: usize)
        ensures
            r == self@.records.len(),
    {
        self.variables.len()
    }

    /// The record that follows the one named by `name` and `guid` in
    /// enumeration order; the empty name asks for the first record.
    pub fn request_get_next(&self, name: String, guid: Guid) -> (r: NextResponse<'_>)
        requires
            self.wf(),
        ensures
            r@ == next_result(self@, name@, guid),
    {
        let ghost recs = self@.records;
        if name.as_str().is_empty() {
            if self.variables.len() == 0 {
                return NextResponse::EndReached;
            }
            assert(recs[0] == self.variables@[0]@);
            return NextResponse::Found(&self.variables[0]);
        }
        match self.get_index(&name, guid) {
            None => NextResponse::Invalid,
            Some(i) => {
                if i < self.variables.len() - 1 {
                    assert(recs[i + 1] == self.variables@[i + 1]@);
                    NextResponse::Found(&self.variables[i + 1])
                } else {
                    NextResponse::EndReached
                }
            },
        }
    }

    /// The record named by `name` and `guid`, as the UEFI GetVariable
    /// service sees it.
    pub fn request_get(&self, name: &String, guid: Guid) -> (r: Result<&EfiVariable, EfiStatus>)
        requires
            self.wf(),
        ensures
            match r {
                Ok(v) => get_result(self@, name@, guid) == Ok::<VariableModel, EfiStatus>(v@),
                Err(e) => get_result(self@, name@, guid) == Err::<VariableModel, EfiStatus>(e),
            },
    {
        if name.as_str().is_empty() {
            return Err(EfiStatus::NotFound);
        }
        match self.get_index(name, guid) {
            None => Err(EfiStatus::NotFound),
            Some(i) => {
                let var = &self.variables[i];
                assert(self@.records[i as int] == var@);
                if self.bootservices_exited && !var.attr.contains(EfiAttributes::RUNTIME_ACCESS) {
                    return Err(EfiStatus::NotFound);
                }
                Ok(var)
            },
        }
    }

    /// The UEFI QueryVariableInfo service, which this store does not offer.
    pub fn request_query_variable_info(
        &mut self,
        _attr: EfiAttributes,
        _maximum_variable_storage_size: &usize,
        _remaining_variable_storage_size: &usize,
        _maximum_variable_size: &usize,
    ) -> (r: EfiStatus)
        ensures
            r == EfiStatus::Unsupported,
            final(self)@ == old(self)@,
    {
        EfiStatus::Unsupported
    }
}

} // verus!
