use vstd::prelude::*;

use crate::bytes::guid_at;
use crate::edk2::{active_records, decode_result, header_error, is_live, EDK2VaribleState, RecordModel};
use crate::attributes::{has_flags, lemma_has_flags_union, lemma_remove_append, EfiAttributes};
use crate::status::EfiStatus;
use crate::varstore::{
    get_result, has_identity, holds, identities_unique, index_of, lemma_index_of_unique, name_len,
    next_result, set_records, set_result, stored_attr, NextModel, VariableModel, VarstoreModel,
};
use crate::Guid;

verus! {

/// The store after each variable of `vs` has been set in turn.
pub open spec fn set_all(s: VarstoreModel, vs: Seq<VariableModel>) -> VarstoreModel
    decreases vs.len(),
{
    if vs.len() == 0 {
        s
    } else {
        set_all(set_result(s, vs[0]).1, vs.drop_first())
    }
}

/// Attributes that pass the checks made before the store is consulted.
pub open spec fn attr_acceptable(a: u32) -> bool {
    &&& !has_flags(a, EfiAttributes::HARDWARE_ERROR_RECORD)
    &&& !has_flags(a, EfiAttributes::AUTHENTICATED_WRITE_ACCESS)
    &&& !has_flags(a, EfiAttributes::ENHANCED_AUTHENTICATED_ACCESS)
    &&& !has_flags(a, EfiAttributes::TIME_BASED_AUTHENTICATED_WRITE_ACCESS)
    &&& (has_flags(a, EfiAttributes::RUNTIME_ACCESS) ==> has_flags(
        a,
        EfiAttributes::BOOTSERVICE_ACCESS,
    ))
}

/// Acceptable attributes never ask for both kinds of authentication.
proof fn lemma_acceptable_single_auth(a: u32)
    ensures
        attr_acceptable(a) ==> !has_flags(
            a,
            EfiAttributes::TIME_BASED_AUTHENTICATED_WRITE_ACCESS
                | EfiAttributes::ENHANCED_AUTHENTICATED_ACCESS,
        ),
{
    lemma_has_flags_union(
        a,
        EfiAttributes::TIME_BASED_AUTHENTICATED_WRITE_ACCESS,
        EfiAttributes::ENHANCED_AUTHENTICATED_ACCESS,
    );
}

/// A set never gives two records the same name and namespace.
pub proof fn lemma_set_keeps_identities_unique(s: VarstoreModel, v: VariableModel)
    requires
        identities_unique(s.records),
    ensures
        identities_unique(set_result(s, v).1.records),
{
    let recs = s.records;
    let stored = VariableModel { attr: stored_attr(v.attr), ..v };
    if set_result(s, v).0 is Ok {
        let out = set_records(s, v);
        if holds(recs, v.name, v.guid) {
            let i = index_of(recs, v.name, v.guid);
            assert(has_identity(recs[i], v.name, v.guid));
            if !has_flags(v.attr, EfiAttributes::APPEND_WRITE) && v.data.len() == 0 {
                assert forall|a: int, b: int| 0 <= a < b < out.len() implies !has_identity(
                    out[a],
                    out[b].name,
                    out[b].guid,
                ) by {
                    let a2 = if a < i { a } else { a + 1 };
                    let b2 = if b < i { b } else { b + 1 };
                    assert(out[a] == recs[a2]);
                    assert(out[b] == recs[b2]);
                }
            } else {
                assert forall|a: int, b: int| 0 <= a < b < out.len() implies !has_identity(
                    out[a],
                    out[b].name,
                    out[b].guid,
                ) by {
                    assert(has_identity(out[i], recs[i].name, recs[i].guid));
                }
            }
        } else {
            assert forall|a: int, b: int| 0 <= a < b < out.len() implies !has_identity(
                out[a],
                out[b].name,
                out[b].guid,
            ) by {
                if b == recs.len() {
                    assert(out[b] == stored);
                    assert(out[a] == recs[a]);
                }
            }
        }
    }
}

/// Whatever variables are set, one after another, no two records of the
/// store ever share a name and a namespace.
pub proof fn lemma_identities_stay_unique(s: VarstoreModel, vs: Seq<VariableModel>)
    requires
        identities_unique(s.records),
    ensures
        identities_unique(set_all(s, vs).records),
    decreases vs.len(),
{
    if vs.len() > 0 {
        lemma_set_keeps_identities_unique(s, vs[0]);
        lemma_identities_stay_unique(set_result(s, vs[0]).1, vs.drop_first());
    }
}

/// Setting a variable twice leaves the store as setting it once. An append,
/// which joins the data a second time, and a write without data, which
/// deletes what the first one left or adds what it deleted, are the writes
/// for which this does not hold.
pub proof fn lemma_set_idempotent(s: VarstoreModel, v: VariableModel)
    requires
        identities_unique(s.records),
        !has_flags(v.attr, EfiAttributes::APPEND_WRITE),
        v.data.len() > 0,
    ensures
        set_result(set_result(s, v).1, v).1 == set_result(s, v).1,
{
    let s1 = set_result(s, v).1;
    if set_result(s, v).0 is Ok {
        let stored = VariableModel { attr: stored_attr(v.attr), ..v };
        lemma_set_keeps_identities_unique(s, v);
        let i = if holds(s.records, v.name, v.guid) {
            index_of(s.records, v.name, v.guid)
        } else {
            s.records.len() as int
        };
        assert(s1.records[i] == stored);
        lemma_index_of_unique(s1.records, v.name, v.guid, i);
        if set_result(s1, v).0 is Ok {
            assert(set_records(s1, v) =~= s1.records);
        }
    }
}

/// Setting a present variable with other attributes than it was stored with
/// fails with `InvalidParameter` and changes nothing. (`APPEND_WRITE` is not
/// part of what is compared; attributes asking for authentication fail
/// earlier, with other errors.)
pub proof fn lemma_attribute_change_rejected(s: VarstoreModel, v: VariableModel)
    requires
        identities_unique(s.records),
        holds(s.records, v.name, v.guid),
        s.records[index_of(s.records, v.name, v.guid)].attr != stored_attr(v.attr),
        !has_flags(v.attr, EfiAttributes::AUTHENTICATED_WRITE_ACCESS),
        !has_flags(v.attr, EfiAttributes::ENHANCED_AUTHENTICATED_ACCESS),
        !has_flags(v.attr, EfiAttributes::TIME_BASED_AUTHENTICATED_WRITE_ACCESS),
    ensures
        set_result(s, v) == (Err::<(), EfiStatus>(EfiStatus::InvalidParameter), s),
{
    lemma_has_flags_union(
        v.attr,
        EfiAttributes::TIME_BASED_AUTHENTICATED_WRITE_ACCESS,
        EfiAttributes::ENHANCED_AUTHENTICATED_ACCESS,
    );
}

/// An empty, non-appending write with a present variable's own attributes
/// deletes it, and a get of it then finds nothing. The write must be one the
/// store accepts: a name within the ceiling, attributes that pass the checks,
/// and, once boot services are left, `RUNTIME_ACCESS`.
pub proof fn lemma_delete_by_empty_write(s: VarstoreModel, v: VariableModel)
    requires
        identities_unique(s.records),
        holds(s.records, v.name, v.guid),
        v.data.len() == 0,
        v.attr == s.records[index_of(s.records, v.name, v.guid)].attr,
        !has_flags(v.attr, EfiAttributes::APPEND_WRITE),
        attr_acceptable(v.attr),
        name_len(v.name) <= s.max_name,
        s.exited ==> has_flags(v.attr, EfiAttributes::RUNTIME_ACCESS),
    ensures
        set_result(s, v).0 == Ok::<(), EfiStatus>(()),
        set_result(s, v).1.records == s.records.remove(index_of(s.records, v.name, v.guid)),
        !holds(set_result(s, v).1.records, v.name, v.guid),
        get_result(set_result(s, v).1, v.name, v.guid) == Err::<VariableModel, EfiStatus>(
            EfiStatus::NotFound,
        ),
{
    lemma_acceptable_single_auth(v.attr);
    let i = index_of(s.records, v.name, v.guid);
    assert(has_identity(s.records[i], v.name, v.guid));
    lemma_remove_append(v.attr);
    let out = set_result(s, v).1.records;
    assert(out == s.records.remove(i));
    if holds(out, v.name, v.guid) {
        let k = choose|k: int| 0 <= k < out.len() && has_identity(#[trigger] out[k], v.name, v.guid);
        let k2 = if k < i { k } else { k + 1 };
        assert(out[k] == s.records[k2]);
        if k2 < i {
            assert(!has_identity(s.records[k2], s.records[i].name, s.records[i].guid));
        } else {
            assert(!has_identity(s.records[i], s.records[k2].name, s.records[k2].guid));
        }
    }
}

/// An append of no data to a present variable succeeds and leaves the store
/// as it was. The write must be one the store accepts: the variable's own
/// attributes with `APPEND_WRITE` added, attributes that pass the checks, a
/// name within the ceiling, and, once boot services are left,
/// `RUNTIME_ACCESS`.
pub proof fn lemma_empty_append_is_no_op(s: VarstoreModel, v: VariableModel)
    requires
        identities_unique(s.records),
        holds(s.records, v.name, v.guid),
        v.data.len() == 0,
        has_flags(v.attr, EfiAttributes::APPEND_WRITE),
        stored_attr(v.attr) == s.records[index_of(s.records, v.name, v.guid)].attr,
        attr_acceptable(v.attr),
        name_len(v.name) <= s.max_name,
        s.exited ==> has_flags(v.attr, EfiAttributes::RUNTIME_ACCESS),
    ensures
        set_result(s, v) == (Ok::<(), EfiStatus>(()), s),
{
    lemma_acceptable_single_auth(v.attr);
    let i = index_of(s.records, v.name, v.guid);
    assert(has_identity(s.records[i], v.name, v.guid));
    assert(s.records[i].data + v.data =~= s.records[i].data);
    assert(set_records(s, v) =~= s.records);
}

/// Once boot services are left, a variable without `RUNTIME_ACCESS` stays
/// in the store but a get does not find it.
pub proof fn lemma_boot_only_hidden_after_exit(s: VarstoreModel, name: Seq<char>, guid: Guid)
    requires
        identities_unique(s.records),
        s.exited,
        holds(s.records, name, guid),
        !has_flags(s.records[index_of(s.records, name, guid)].attr, EfiAttributes::RUNTIME_ACCESS),
    ensures
        get_result(s, name, guid) == Err::<VariableModel, EfiStatus>(EfiStatus::NotFound),
{
}

/// Once boot services are left, no set can change or delete a variable
/// without `RUNTIME_ACCESS`: the call fails and the store stays as it was.
pub proof fn lemma_boot_only_frozen_after_exit(s: VarstoreModel, v: VariableModel)
    requires
        identities_unique(s.records),
        s.exited,
        holds(s.records, v.name, v.guid),
        !has_flags(s.records[index_of(s.records, v.name, v.guid)].attr, EfiAttributes::RUNTIME_ACCESS),
    ensures
        set_result(s, v).0 is Err,
        set_result(s, v).1 == s,
{
    let a = v.attr;
    if set_result(s, v).0 is Ok {
        assert(stored_attr(a) == s.records[index_of(s.records, v.name, v.guid)].attr);
        lemma_remove_append(a);
    }
}

/// Once boot services are left, a variable with `RUNTIME_ACCESS` is still
/// found by a get, and a write of new data with its own attributes replaces
/// it, as long as the write is one the store accepts.
pub proof fn lemma_runtime_usable_after_exit(s: VarstoreModel, v: VariableModel)
    requires
        identities_unique(s.records),
        s.exited,
        holds(s.records, v.name, v.guid),
        v.name.len() > 0,
        v.attr == s.records[index_of(s.records, v.name, v.guid)].attr,
        has_flags(v.attr, EfiAttributes::RUNTIME_ACCESS),
        !has_flags(v.attr, EfiAttributes::APPEND_WRITE),
        attr_acceptable(v.attr),
        name_len(v.name) <= s.max_name,
        0 < v.data.len() <= s.max_data,
    ensures
        get_result(s, v.name, v.guid) == Ok::<VariableModel, EfiStatus>(
            s.records[index_of(s.records, v.name, v.guid)],
        ),
        set_result(s, v).0 == Ok::<(), EfiStatus>(()),
        set_result(s, v).1.records == s.records.update(index_of(s.records, v.name, v.guid), v),
{
    lemma_acceptable_single_auth(v.attr);
    lemma_remove_append(v.attr);
    assert((VariableModel { attr: stored_attr(v.attr), ..v }) == v);
}

/// Asking for both time-based and enhanced authentication is a security
/// violation, whatever the variable and the store, once the name, the data
/// and the checks for a hardware error record and for the deprecated
/// authenticated write, which come first, have passed.
pub proof fn lemma_two_authentications_rejected(s: VarstoreModel, v: VariableModel)
    requires
        has_flags(
            v.attr,
            EfiAttributes::TIME_BASED_AUTHENTICATED_WRITE_ACCESS
                | EfiAttributes::ENHANCED_AUTHENTICATED_ACCESS,
        ),
        name_len(v.name) <= s.max_name,
        v.data.len() <= s.max_data,
        !has_flags(v.attr, EfiAttributes::HARDWARE_ERROR_RECORD),
        !has_flags(v.attr, EfiAttributes::AUTHENTICATED_WRITE_ACCESS),
    ensures
        set_result(s, v) == (Err::<(), EfiStatus>(EfiStatus::SecurityViolation), s),
{
}

/// Enumeration walks the records in their order: the empty name gives the
/// first, each record gives the one after it, the last gives the end, and a
/// name that no record has is an invalid cursor.
pub proof fn lemma_enumeration_order(s: VarstoreModel, i: int, name: Seq<char>, guid: Guid)
    requires
        identities_unique(s.records),
        0 <= i < s.records.len(),
        s.records[i].name.len() > 0,
    ensures
        next_result(s, Seq::empty(), guid) == NextModel::Found(s.records[0]),
        i + 1 < s.records.len() ==> next_result(s, s.records[i].name, s.records[i].guid)
            == NextModel::Found(s.records[i + 1]),
        i + 1 == s.records.len() ==> next_result(s, s.records[i].name, s.records[i].guid)
            == NextModel::EndReached,
        name.len() > 0 && !holds(s.records, name, guid) ==> next_result(s, name, guid)
            == NextModel::Invalid,
{
    lemma_index_of_unique(s.records, s.records[i].name, s.records[i].guid, i);
}

/// Changing one byte of a GUID's 16-byte form changes the GUID.
pub proof fn lemma_guid_byte_change(b: Seq<u8>, at: int, i: int, x: u8)
    requires
        0 <= at,
        at + 16 <= b.len(),
        at <= i < at + 16,
        x != b[i],
    ensures
        guid_at(b.update(i, x), at) != guid_at(b, at),
{
    let c = b.update(i, x);
    assert(forall|j: int| 0 <= j < b.len() && j != i ==> c[j] == b[j]);
    if i == at + 0 {
        assert(c[at + 0] == x);
    } else if i == at + 1 {
        assert(c[at + 1] == x);
    } else if i == at + 2 {
        assert(c[at + 2] == x);
    } else if i == at + 3 {
        assert(c[at + 3] == x);
    } else if i == at + 4 {
        assert(c[at + 4] == x);
    } else if i == at + 5 {
        assert(c[at + 5] == x);
    } else if i == at + 6 {
        assert(c[at + 6] == x);
    } else if i == at + 7 {
        assert(c[at + 7] == x);
    } else if i == at + 8 {
        assert(c[at + 8] == x);
    } else if i == at + 9 {
        assert(c[at + 9] == x);
    } else if i == at + 10 {
        assert(c[at + 10] == x);
    } else if i == at + 11 {
        assert(c[at + 11] == x);
    } else if i == at + 12 {
        assert(c[at + 12] == x);
    } else if i == at + 13 {
        assert(c[at + 13] == x);
    } else if i == at + 14 {
        assert(c[at + 14] == x);
    } else if i == at + 15 {
        assert(c[at + 15] == x);
    }
}

/// Changing one byte of the file system GUID, of the `_FVH` signature or
/// of the revision of a well-formed image makes the decoder reject it, so
/// that no record comes out.
#[verifier::rlimit(20)]
pub proof fn lemma_header_byte_change_rejected(b: Seq<u8>, i: int, x: u8)
    requires
        decode_result(b) is Ok,
        16 <= i < 32 || 40 <= i < 44 || i == 55,
        x != b[i],
    ensures
        decode_result(b.update(i, x)) is Err,
{
    let c = b.update(i, x);
    reveal(header_error);
    assert(header_error(b) is None);
    if header_error(c) is None {
        if 16 <= i < 32 {
            lemma_guid_byte_change(b, 16, i, x);
        }
    }
}

/// The records that a decode hands out as variables are exactly the live
/// ones of the image: each has the state `VAR_ADDED`, and each record with
/// that state is among them.
pub proof fn lemma_decoded_records_are_the_live_ones(recs: Seq<RecordModel>)
    ensures
        forall|k: int|
            0 <= k < active_records(recs).len() ==> (#[trigger] active_records(recs)[k]).state
                == EDK2VaribleState::VAR_ADDED,
        forall|i: int|
            0 <= i < recs.len() && (#[trigger] recs[i]).state == EDK2VaribleState::VAR_ADDED
                ==> active_records(recs).contains(recs[i]),
{
    reveal(active_records);
    assert forall|k: int| 0 <= k < active_records(recs).len() implies (#[trigger] active_records(
        recs,
    )[k]).state == EDK2VaribleState::VAR_ADDED by {
        recs.lemma_filter_pred(is_live(), k);
    }
    assert forall|i: int|
        0 <= i < recs.len() && (#[trigger] recs[i]).state
            == EDK2VaribleState::VAR_ADDED implies active_records(recs).contains(recs[i]) by {
        recs.lemma_filter_contains(is_live(), i);
    }
}

} // verus!
