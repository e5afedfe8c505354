use vstd::prelude::*;

use crate::attributes::EfiAttributes;
use crate::bytes::{
    copy_bytes, guid_at, le16, le32, le64, read_guid, read_u16, read_u32, read_u64, read_units,
    units_at,
};
use crate::ucs2::{string_from_ucs2, ucs2_terminated, units_spell};
use crate::varstore::EfiVariable;
use crate::Guid;

verus! {

broadcast use vstd::slice::group_slice_axioms;

/// The file system GUID of a firmware volume that holds variables.
pub const FV_FILESYSTEM_GUID: Guid = 0xfff12b8d_7696_4c8b_a985_2747075b4f50;

/// The GUID of a variable store whose records carry authentication fields.
pub const VARIABLE_STORE_GUID: Guid = 0xaaf32c78_947b_439a_a180_2e144ec37792;

/// Length of the firmware volume header, and offset of the variable store
/// header that follows it.
pub const FV_HEADER_LENGTH: usize = 0x48;

/// Offset of the first record: the firmware volume header and the 28-byte
/// variable store header come before it.
pub const FIRST_RECORD_OFFSET: usize = 100;

/// Length of a record's fixed part, before its name.
pub const RECORD_HEADER_LENGTH: usize = 60;

/// The mark that starts each record.
pub const RECORD_START_ID: u16 = 0x55aa;

/// What an erased record header reads as.
pub const ERASED_START_ID: u16 = 0xffff;

/// Why an image is not a well-formed variable store.
#[derive(Clone, Copy, Debug, PartialEq, Eq, Structural)]
pub enum ParseError {
    /// The image ends before the headers do.
    Truncated,
    /// The reserved vector at the start is not zero.
    ReservedNotZero,
    /// The firmware volume's file system GUID is not `FV_FILESYSTEM_GUID`.
    FileSystemGuid,
    /// The firmware volume signature is not `_FVH`.
    Signature,
    /// The firmware volume attributes hold an undefined bit.
    FirmwareVolumeAttributes,
    /// The firmware volume header length is not 0x48.
    HeaderLength,
    /// The firmware volume revision is not 2.
    Revision,
    /// The variable store GUID is not `VARIABLE_STORE_GUID`.
    VariableStoreGuid,
    /// The declared variable store size reaches past the image, or does not
    /// cover its own header.
    VariableArea,
    /// A record reaches past the variable area.
    RecordTruncated,
    /// A record does not start with 0x55AA.
    RecordSignature,
    /// A record's attributes hold an undefined bit.
    RecordAttributes,
    /// A record's name is not a NUL-terminated UCS-2 string.
    RecordName,
}

/// The attribute flags of a firmware volume block.
#[derive(Clone, Copy, Debug, PartialEq, Eq, Structural)]
pub struct EDK2FirmwareVolume2Attributes {
    bits: u32,
}

impl View for EDK2FirmwareVolume2Attributes {
    type V = u32;

    closed spec fn view(&self) -> u32 {
        self.bits
    }
}

impl EDK2FirmwareVolume2Attributes {
    pub const READ_DISABLED_CAP: u32 = 0x00000001;
    pub const READ_ENABLED_CAP: u32 = 0x00000002;
    pub const READ_STATUS: u32 = 0x00000004;
    pub const WRITE_DISABLED_CAP: u32 = 0x00000008;
    pub const WRITE_ENABLED_CAP: u32 = 0x00000010;
    pub const WRITE_STATUS: u32 = 0x00000020;
    pub const LOCK_CAP: u32 = 0x00000040;
    pub const LOCK_STATUS: u32 = 0x00000080;
    pub const STICKY_WRITE: u32 = 0x00000200;
    pub const MEMORY_MAPPED: u32 = 0x00000400;
    pub const ERASE_POLARITY: u32 = 0x00000800;
    pub const READ_LOCK_CAP: u32 = 0x00001000;
    pub const READ_LOCK_STATUS: u32 = 0x00002000;
    pub const WRITE_LOCK_CAP: u32 = 0x00004000;
    pub const WRITE_LOCK_STATUS: u32 = 0x00008000;
    pub const ALIGNMENT: u32 = 0x001F0000;
    pub const ALIGNMENT_1: u32 = 0x00000000;
    pub const ALIGNMENT_2: u32 = 0x00010000;
    pub const ALIGNMENT_4: u32 = 0x00020000;
    pub const ALIGNMENT_8: u32 = 0x00030000;
    pub const ALIGNMENT_16: u32 = 0x00040000;
    pub const ALIGNMENT_32: u32 = 0x00050000;
    pub const ALIGNMENT_64: u32 = 0x00060000;
    pub const ALIGNMENT_128: u32 = 0x00070000;
    pub const ALIGNMENT_256: u32 = 0x00080000;
    pub const ALIGNMENT_512: u32 = 0x00090000;
    pub const ALIGNMENT_1K: u32 = 0x000A0000;
    pub const ALIGNMENT_2K: u32 = 0x000B0000;
    pub const ALIGNMENT_4K: u32 = 0x000C0000;
    pub const ALIGNMENT_8K: u32 = 0x000D0000;
    pub const ALIGNMENT_16K: u32 = 0x000E0000;
    pub const ALIGNMENT_32K: u32 = 0x000F0000;
    pub const ALIGNMENT_64K: u32 = 0x00100000;
    pub const ALIGNMENT_128K: u32 = 0x00110000;
    pub const ALIGNMENT_256K: u32 = 0x00120000;
    pub const ALIGNMENT_512K: u32 = 0x00130000;
    pub const ALIGNMENT_1M: u32 = 0x00140000;
    pub const ALIGNMENT_2M: u32 = 0x00150000;
    pub const ALIGNMENT_4M: u32 = 0x00160000;
    pub const ALIGNMENT_8M: u32 = 0x00170000;
    pub const ALIGNMENT_16M: u32 = 0x00180000;
    pub const ALIGNMENT_32M: u32 = 0x00190000;
    pub const ALIGNMENT_64M: u32 = 0x001A0000;
    pub const ALIGNMENT_128M: u32 = 0x001B0000;
    pub const ALIGNMENT_256M: u32 = 0x001C0000;
    pub const ALIGNMENT_512M: u32 = 0x001D0000;
    pub const ALIGNMENT_1G: u32 = 0x001E0000;
    pub const ALIGNMENT_2G: u32 = 0x001F0000;
    pub const WEAK_ALIGNMENT: u32 = 0x80000000;
    /// Every defined bit.
    pub const ALL: u32 = 0x801FFEFF;

    /// The set with exactly the given bits, or `None` when an undefined bit
    /// is set.
    pub fn from_bits(bits: u32) -> (r: Option<Self>)
        ensures
            r is Some <==> bits & !Self::ALL == 0,
            r matches Some(a) ==> a@ == bits,
    {
        if bits & !Self::ALL == 0 {
            Some(EDK2FirmwareVolume2Attributes { bits })
        } else {
            None
        }
    }

    pub fn bits(&self) -> (r: u32)
        ensures
            r == self@,
    {
        self.bits
    }

    /// Every bit of `flags` is set.
    pub fn contains(&self, flags: u32) -> (r: bool)
        ensures
            r == (self@ & flags == flags),
    {
        self.bits & flags == flags
    }
}

/// The state byte of a record. Each later state clears more bits of the
/// erased value 0xff, so the states overlap; every byte is a state.
#[derive(Clone, Copy, Debug, PartialEq, Eq, Structural)]
pub struct EDK2VaribleState {
    bits: u8,
}

impl View for EDK2VaribleState {
    type V = u8;

    closed spec fn view(&self) -> u8 {
        self.bits
    }
}

impl EDK2VaribleState {
    /// The record is being made obsolete.
    pub const IN_DELETED_TRANSITION: u8 = 0xfe;
    /// The record is obsolete.
    pub const DELETED: u8 = 0xfd;
    /// Only the record's header has been written.
    pub const HEADER_VALID_ONLY: u8 = 0x7f;
    /// The record has been written completely.
    pub const VAR_ADDED: u8 = 0x3f;
    /// The record has passed through all the states above.
    pub const ADDED_AND_DELETED: u8 = 0x3c;

    pub fn from_bits(bits: u8) -> (r: Self)
        ensures
            r@ == bits,
    {
        EDK2VaribleState { bits }
    }

    pub fn bits(&self) -> (r: u8)
        ensures
            r == self@,
    {
        self.bits
    }

    /// Every bit of `flags` is set.
    pub fn contains(&self, flags: u8) -> (r: bool)
        ensures
            r == (self@ & flags == flags),
    {
        self.bits & flags == flags
    }

    /// The record is live: it has been added completely and not deleted.
    pub fn is_valid(&self) -> (r: bool)
        ensures
            r == (self@ == Self::VAR_ADDED),
    {
        self.bits == Self::VAR_ADDED
    }
}

/// The fixed headers of a store, as read.
pub ghost struct HeaderModel {
    pub zero_vector: Seq<u8>,
    pub fs_guid: int,
    pub length: int,
    pub signature: Seq<u8>,
    pub attributes: u32,
    pub header_length: int,
    pub header_checksum: int,
    pub revision: u8,
    pub vs_guid: int,
    pub variable_size: int,
    pub status: Seq<u8>,
}

/// One record, as read.
pub ghost struct RecordModel {
    pub signature: int,
    pub state: u8,
    pub attributes: u32,
    pub monotonic_count: int,
    pub timestamp: Seq<u8>,
    pub pubkey_index: int,
    pub name_size: int,
    pub data_size: int,
    pub guid: int,
    /// The name's code units, the terminating NUL included.
    pub name_units: Seq<u16>,
    pub data: Seq<u8>,
}

/// The headers at the start of `b`.
pub open spec fn header_at(b: Seq<u8>) -> HeaderModel {
    HeaderModel {
        zero_vector: b.subrange(0, 16),
        fs_guid: guid_at(b, 16),
        length: le64(b, 32),
        signature: b.subrange(40, 44),
        attributes: le32(b, 44) as u32,
        header_length: le16(b, 48),
        header_checksum: le16(b, 50),
        revision: b[55],
        vs_guid: guid_at(b, 72),
        variable_size: le32(b, 88),
        status: b.subrange(92, 100),
    }
}

/// Where the variable area ends.
pub open spec fn area_end(b: Seq<u8>) -> int {
    FV_HEADER_LENGTH + le32(b, 88)
}

/// The first check that the headers of `b` fail, in reading order.
#[verifier::opaque]
pub open spec fn header_error(b: Seq<u8>) -> Option<ParseError> {
    if b.len() < FIRST_RECORD_OFFSET {
        Some(ParseError::Truncated)
    } else if exists|i: int| 0 <= i < 16 && b[i] != 0 {
        Some(ParseError::ReservedNotZero)
    } else if guid_at(b, 16) != FV_FILESYSTEM_GUID {
        Some(ParseError::FileSystemGuid)
    } else if !(b[40] == 0x5f && b[41] == 0x46 && b[42] == 0x56 && b[43] == 0x48) {
        Some(ParseError::Signature)
    } else if (le32(b, 44) as u32) & !EDK2FirmwareVolume2Attributes::ALL != 0 {
        Some(ParseError::FirmwareVolumeAttributes)
    } else if le16(b, 48) != FV_HEADER_LENGTH {
        Some(ParseError::HeaderLength)
    } else if b[55] != 2 {
        Some(ParseError::Revision)
    } else if guid_at(b, 72) != VARIABLE_STORE_GUID {
        Some(ParseError::VariableStoreGuid)
    } else if area_end(b) > b.len() || area_end(b) < FIRST_RECORD_OFFSET {
        Some(ParseError::VariableArea)
    } else {
        None
    }
}

/// The first multiple of four at or after `pos`.
pub open spec fn align4(pos: int) -> int {
    pos + (4 - pos % 4) % 4
}

/// The number of bytes a record's name takes: whole code units only.
pub open spec fn name_bytes(b: Seq<u8>, p: int) -> int {
    2 * (le32(b, p + 36) / 2)
}

/// Where the record at `p` ends.
pub open spec fn record_next(b: Seq<u8>, p: int) -> int {
    p + RECORD_HEADER_LENGTH + name_bytes(b, p) + le32(b, p + 40)
}

/// The record at `p`, as read.
pub open spec fn record_at(b: Seq<u8>, p: int) -> RecordModel {
    let name_at = p + RECORD_HEADER_LENGTH;
    let data_at = name_at + name_bytes(b, p);
    RecordModel {
        signature: le16(b, p),
        state: b[p + 2],
        attributes: le32(b, p + 4) as u32,
        monotonic_count: le64(b, p + 8),
        timestamp: b.subrange(p + 16, p + 32),
        pubkey_index: le32(b, p + 32),
        name_size: le32(b, p + 36),
        data_size: le32(b, p + 40),
        guid: guid_at(b, p + 44),
        name_units: units_at(b, name_at, le32(b, p + 36) / 2),
        data: b.subrange(data_at, data_at + le32(b, p + 40)),
    }
}

/// The first check that the record at `p` fails, for an area ending at `end`.
pub open spec fn record_error(b: Seq<u8>, p: int, end: int) -> Option<ParseError> {
    if p + RECORD_HEADER_LENGTH > end {
        Some(ParseError::RecordTruncated)
    } else if le16(b, p) != RECORD_START_ID {
        Some(ParseError::RecordSignature)
    } else if (le32(b, p + 4) as u32) & !EfiAttributes::ALL != 0 {
        Some(ParseError::RecordAttributes)
    } else if record_next(b, p) > end {
        Some(ParseError::RecordTruncated)
    } else if !ucs2_terminated(record_at(b, p).name_units) {
        Some(ParseError::RecordName)
    } else {
        None
    }
}

/// The records from `pos` to `end`, read one after another, each from the
/// next multiple of four. They end where the area ends or where an erased
/// header begins; any record that fails a check fails the whole.
#[verifier::opaque]
pub open spec fn parse_records(b: Seq<u8>, pos: int, end: int) -> Result<Seq<RecordModel>, ParseError>
    decreases end - pos,
{
    let p = align4(pos);
    if pos < 0 || p >= end {
        Ok(Seq::empty())
    } else if p + 2 <= end && le16(b, p) == ERASED_START_ID {
        Ok(Seq::empty())
    } else {
        match record_error(b, p, end) {
            Some(e) => Err(e),
            None => match parse_records(b, record_next(b, p), end) {
                Ok(rest) => Ok(seq![record_at(b, p)] + rest),
                Err(e) => Err(e),
            },
        }
    }
}

/// What an image decodes to: its headers and all of its records.
pub open spec fn decode_result(b: Seq<u8>) -> Result<(HeaderModel, Seq<RecordModel>), ParseError> {
    match header_error(b) {
        Some(e) => Err(e),
        None => match parse_records(b, FIRST_RECORD_OFFSET as int, area_end(b)) {
            Ok(recs) => Ok((header_at(b), recs)),
            Err(e) => Err(e),
        },
    }
}

/// The records that are live, in order.
#[verifier::opaque]
pub open spec fn active_records(recs: Seq<RecordModel>) -> Seq<RecordModel> {
    recs.filter(is_live())
}

/// A record is live when its state is exactly `VAR_ADDED`.
pub open spec fn is_live() -> spec_fn(RecordModel) -> bool {
    |r: RecordModel| r.state == EDK2VaribleState::VAR_ADDED
}

/// No records, none live.
proof fn lemma_active_records_none(recs: Seq<RecordModel>)
    ensures
        active_records(recs.take(0)).len() == 0,
{
    reveal(active_records);
    reveal_with_fuel(Seq::filter, 1);
}

/// `active_records` grows by one record at a time.
proof fn lemma_active_records_step(recs: Seq<RecordModel>, i: int)
    requires
        0 <= i < recs.len(),
    ensures
        active_records(recs.take(i + 1)) == if recs[i].state == EDK2VaribleState::VAR_ADDED {
            active_records(recs.take(i)).push(recs[i])
        } else {
            active_records(recs.take(i))
        },
{
    let s = recs.take(i + 1);
    assert(s.drop_last() =~= recs.take(i));
    assert(s.last() == recs[i]);
    reveal(active_records);
    reveal_with_fuel(Seq::filter, 1);
    assert(s.filter(is_live()) == if is_live()(s.last()) {
        s.drop_last().filter(is_live()).push(s.last())
    } else {
        s.drop_last().filter(is_live())
    });
}

/// `v` is the store variable made from the record `m`.
pub open spec fn native_of(v: EfiVariable, m: RecordModel) -> bool {
    &&& units_spell(m.name_units.drop_last(), v.name@)
    &&& v.guid == m.guid
    &&& v.data@ == m.data
    &&& v.attr@ == m.attributes
}

/// The fixed headers of an EDK2 variable store image.
#[derive(Debug, Clone)]
pub struct EDK2VariableHeader {
    pub zero_vector: Vec<u8>,
    pub fs_guid: Guid,
    pub length: u64,
    pub signature: Vec<u8>,
    pub attributes: EDK2FirmwareVolume2Attributes,
    pub header_length: u16,
    pub header_checksum: u16,
    pub revision: u8,
    pub vs_guid: Guid,
    pub variable_size: u32,
    pub status: Vec<u8>,
}

impl View for EDK2VariableHeader {
    type V = HeaderModel;

    open spec fn view(&self) -> HeaderModel {
        HeaderModel {
            zero_vector: self.zero_vector@,
            fs_guid: self.fs_guid as int,
            length: self.length as int,
            signature: self.signature@,
            attributes: self.attributes@,
            header_length: self.header_length as int,
            header_checksum: self.header_checksum as int,
            revision: self.revision,
            vs_guid: self.vs_guid as int,
            variable_size: self.variable_size as int,
            status: self.status@,
        }
    }
}

/// One record of an EDK2 variable store image.
#[derive(Debug, Clone)]
pub struct EDK2Variable {
    pub signature: u16,
    pub state: EDK2VaribleState,
    pub attributes: EfiAttributes,
    pub monotonic_count: u64,
    pub timestamp: Vec<u8>,
    pub pubkey_index: u32,
    pub name_size: u32,
    pub data_size: u32,
    pub guid: Guid,
    pub name: String,
    pub data: Vec<u8>,
}

impl EDK2Variable {
    /// This is the record `m`, its name written as text.
    pub open spec fn decoded_as(&self, m: RecordModel) -> bool {
        &&& self.signature == m.signature
        &&& self.state@ == m.state
        &&& self.attributes@ == m.attributes
        &&& self.monotonic_count == m.monotonic_count
        &&& self.timestamp@ == m.timestamp
        &&& self.pubkey_index == m.pubkey_index
        &&& self.name_size == m.name_size
        &&& self.data_size == m.data_size
        &&& self.guid == m.guid
        &&& units_spell(m.name_units.drop_last(), self.name@)
        &&& self.data@ == m.data
    }
}

/// An EDK2 variable store image, decoded.
#[derive(Debug, Clone)]
pub struct EDK2VariableStore {
    pub header: EDK2VariableHeader,
    pub variables: Vec<EDK2Variable>,
}

/// Reads and checks the headers at the start of `b`.
fn parse_header(b: &[u8]) -> (r: Result<EDK2VariableHeader, ParseError>)
    ensures
        match header_error(b@) {
            Some(e) => r == Err::<EDK2VariableHeader, ParseError>(e),
            None => r matches Ok(h) && h@ == header_at(b@) && FIRST_RECORD_OFFSET <= area_end(b@)
                <= b@.len(),
        },
{
    reveal(header_error);
    if b.len() < FIRST_RECORD_OFFSET {
        return Err(ParseError::Truncated);
    }
    let mut i: usize = 0;
    while i < 16
        invariant
            i <= 16,
            FIRST_RECORD_OFFSET <= b@.len(),
            forall|j: int| 0 <= j < i ==> b@[j] == 0,
        decreases 16 - i,
    {
        if b[i] != 0 {
            assert(exists|j: int| 0 <= j < 16 && b@[j] != 0);
            proof {
                reveal(header_error);
            }
            return Err(ParseError::ReservedNotZero);
        }
        i += 1;
    }
    let fs_guid = read_guid(b, 16);
    if fs_guid != FV_FILESYSTEM_GUID {
        return Err(ParseError::FileSystemGuid);
    }
    let length = read_u64(b, 32);
    if !(b[40] == 0x5f && b[41] == 0x46 && b[42] == 0x56 && b[43] == 0x48) {
        return Err(ParseError::Signature);
    }
    let attributes = match EDK2FirmwareVolume2Attributes::from_bits(read_u32(b, 44)) {
        Some(a) => a,
        None => return Err(ParseError::FirmwareVolumeAttributes),
    };
    let header_length = read_u16(b, 48);
    if header_length as usize != FV_HEADER_LENGTH {
        return Err(ParseError::HeaderLength);
    }
    let header_checksum = read_u16(b, 50);
    let revision = b[55];
    if revision != 2 {
        return Err(ParseError::Revision);
    }
    let vs_guid = read_guid(b, 72);
    if vs_guid != VARIABLE_STORE_GUID {
        return Err(ParseError::VariableStoreGuid);
    }
    let variable_size = read_u32(b, 88);
    if variable_size as usize > b.len() - FV_HEADER_LENGTH
        || (variable_size as usize) < FIRST_RECORD_OFFSET - FV_HEADER_LENGTH {
        return Err(ParseError::VariableArea);
    }
    Ok(
        EDK2VariableHeader {
            zero_vector: copy_bytes(b, 0, 16),
            fs_guid,
            length,
            signature: copy_bytes(b, 40, 4),
            attributes,
            header_length,
            header_checksum,
            revision,
            vs_guid,
            variable_size,
            status: copy_bytes(b, 92, 8),
        },
    )
}

/// Reads and checks the record at `p`, which ends before `end`.
fn parse_variable(b: &[u8], p: usize, end: usize) -> (r: Result<(EDK2Variable, usize), ParseError>)
    requires
        end <= b.len(),
        p < end,
    ensures
        match record_error(b@, p as int, end as int) {
            Some(e) => r == Err::<(EDK2Variable, usize), ParseError>(e),
            None => r matches Ok((v, next)) && v.decoded_as(record_at(b@, p as int)) && next
                == record_next(b@, p as int),
        },
{
    if end - p < RECORD_HEADER_LENGTH {
        return Err(ParseError::RecordTruncated);
    }
    let signature = read_u16(b, p);
    if signature != RECORD_START_ID {
        return Err(ParseError::RecordSignature);
    }
    let state = EDK2VaribleState::from_bits(b[p + 2]);
    let attributes = match EfiAttributes::from_bits(read_u32(b, p + 4)) {
        Some(a) => a,
        None => return Err(ParseError::RecordAttributes),
    };
    let monotonic_count = read_u64(b, p + 8);
    let timestamp = copy_bytes(b, p + 16, 16);
    let pubkey_index = read_u32(b, p + 32);
    let name_size = read_u32(b, p + 36);
    let data_size = read_u32(b, p + 40);
    let guid = read_guid(b, p + 44);
    let units = (name_size / 2) as usize;
    let name_at = p + RECORD_HEADER_LENGTH;
    let room = end - name_at;
    if units > room / 2 || data_size as usize > room - 2 * units {
        return Err(ParseError::RecordTruncated);
    }
    let data_at = name_at + 2 * units;
    let name_units = read_units(b, name_at, units);
    let name = match string_from_ucs2(name_units) {
        Some(name) => name,
        None => return Err(ParseError::RecordName),
    };
    let data = copy_bytes(b, data_at, data_size as usize);
    let v = EDK2Variable {
        signature,
        state,
        attributes,
        monotonic_count,
        timestamp,
        pubkey_index,
        name_size,
        data_size,
        guid,
        name,
        data,
    };
    Ok((v, data_at + data_size as usize))
}

/// The first step of `parse_records`, taken from a known start.
proof fn lemma_parse_records_step(b: Seq<u8>, pos: int, end: int)
    requires
        0 <= pos,
    ensures
        ({
            let p = align4(pos);
            parse_records(b, pos, end) == if p >= end {
                Ok(Seq::empty())
            } else if p + 2 <= end && le16(b, p) == ERASED_START_ID {
                Ok(Seq::empty())
            } else {
                match record_error(b, p, end) {
                    Some(e) => Err(e),
                    None => match parse_records(b, record_next(b, p), end) {
                        Ok(rest) => Ok(seq![record_at(b, p)] + rest),
                        Err(e) => Err(e),
                    },
                }
            }
        }),
{
    reveal_with_fuel(parse_records, 1);
}

/// Reads the records of the area that runs from `FIRST_RECORD_OFFSET` to `end`.
#[verifier::rlimit(30)]
fn parse_variables(b: &[u8], end: usize) -> (r: Result<Vec<EDK2Variable>, ParseError>)
    requires
        FIRST_RECORD_OFFSET <= end <= b.len(),
    ensures
        match parse_records(b@, FIRST_RECORD_OFFSET as int, end as int) {
            Err(e) => r == Err::<Vec<EDK2Variable>, ParseError>(e),
            Ok(recs) => r matches Ok(vs) && vs@.len() == recs.len() && forall|i: int|
                0 <= i < recs.len() ==> (#[trigger] vs@[i]).decoded_as(recs[i]),
        },
{
    let ghost whole = parse_records(b@, FIRST_RECORD_OFFSET as int, end as int);
    let mut out: Vec<EDK2Variable> = Vec::new();
    let ghost models: Seq<RecordModel> = Seq::empty();
    let mut pos: usize = FIRST_RECORD_OFFSET;
    loop
        invariant
            end <= b.len(),
            pos <= end,
            whole == parse_records(b@, FIRST_RECORD_OFFSET as int, end as int),
            out@.len() == models.len(),
            forall|i: int| 0 <= i < models.len() ==> (#[trigger] out@[i]).decoded_as(models[i]),
            whole == match parse_records(b@, pos as int, end as int) {
                Ok(rest) => Ok::<Seq<RecordModel>, ParseError>(models + rest),
                Err(e) => Err(e),
            },
        decreases end - pos,
    {
        let gap = (4 - pos % 4) % 4;
        proof {
            lemma_parse_records_step(b@, pos as int, end as int);
        }
        assert(pos + gap == align4(pos as int));
        if gap >= end - pos {
            assert(models + Seq::<RecordModel>::empty() =~= models);
            return Ok(out);
        }
        let p = pos + gap;
        if end - p >= 2 && read_u16(b, p) == ERASED_START_ID {
            assert(models + Seq::<RecordModel>::empty() =~= models);
            return Ok(out);
        }
        match parse_variable(b, p, end) {
            Err(e) => {
                return Err(e);
            },
            Ok((v, next)) => {
                proof {
                    let m = record_at(b@, p as int);
                    match parse_records(b@, next as int, end as int) {
                        Ok(rest) => {
                            assert(models + (seq![m] + rest) =~= models.push(m) + rest);
                        },
                        Err(e) => {},
                    }
                    models = models.push(m);
                }
                out.push(v);
                pos = next;
            },
        }
    }
}

/// The store variables made from the live records among `variables`.
fn live_variables(variables: &Vec<EDK2Variable>, recs: Ghost<Seq<RecordModel>>) -> (vars: Vec<EfiVariable>)
    requires
        variables@.len() == recs@.len(),
        forall|j: int| 0 <= j < recs@.len() ==> (#[trigger] variables@[j]).decoded_as(recs@[j]),
    ensures
        vars@.len() == active_records(recs@).len(),
        forall|k: int| 0 <= k < vars@.len() ==> native_of(#[trigger] vars@[k], active_records(recs@)[k]),
{
    let ghost recs: Seq<RecordModel> = recs@;
    proof {
        lemma_active_records_none(recs);
    }
    let mut vars: Vec<EfiVariable> = Vec::new();
    let mut i: usize = 0;
    while i < variables.len()
        invariant
            i <= variables@.len(),
            variables@.len() == recs.len(),
            forall|j: int| 0 <= j < recs.len() ==> (#[trigger] variables@[j]).decoded_as(recs[j]),
            vars@.len() == active_records(recs.take(i as int)).len(),
            forall|k: int|
                0 <= k < vars@.len() ==> native_of(
                    #[trigger] vars@[k],
                    active_records(recs.take(i as int))[k],
                ),
        decreases variables.len() - i,
    {
        let var = &variables[i];
        proof {
            lemma_active_records_step(recs, i as int);
        }
        if var.state.is_valid() {
            let data = var.data.clone();
            assert(data@ =~= var.data@);
            vars.push(
                EfiVariable { name: var.name.clone(), guid: var.guid, data, attr: var.attributes },
            );
        }
        i += 1;
    }
    assert(recs.take(recs.len() as int) =~= recs);
    vars
}

impl EDK2VariableStore {
    /// Decodes an EDK2 variable store image: its live records as store
    /// variables, in order, and the whole store as read. A malformed image
    /// gives the first check that it fails, and nothing else.
    #[verifier::rlimit(20)]
    pub fn from_bytes(edk2bytes: Vec<u8>) -> (r: Result<(Vec<EfiVariable>, EDK2VariableStore), ParseError>)
        ensures
            match decode_result(edk2bytes@) {
                Err(e) => r == Err::<(Vec<EfiVariable>, EDK2VariableStore), ParseError>(e),
                Ok((header, recs)) => r matches Ok((vars, store)) && {
                    &&& store.header@ == header
                    &&& store.variables@.len() == recs.len()
                    &&& forall|i: int|
                        0 <= i < recs.len() ==> (#[trigger] store.variables@[i]).decoded_as(recs[i])
                    &&& vars@.len() == active_records(recs).len()
                    &&& forall|k: int|
                        0 <= k < vars@.len() ==> native_of(
                            #[trigger] vars@[k],
                            active_records(recs)[k],
                        )
                },
            },
    {
        let b = edk2bytes.as_slice();
        let ghost bs = b@;
        let header = match parse_header(b) {
            Ok(h) => h,
            Err(e) => return Err(e),
        };
        assert(b@.len() == b.len());
        let end = FV_HEADER_LENGTH + header.variable_size as usize;
        assert(end == area_end(bs));
        let ghost parsed = parse_records(bs, FIRST_RECORD_OFFSET as int, end as int);
        let variables = match parse_variables(b, end) {
            Ok(vs) => vs,
            Err(e) => return Err(e),
        };
        let ghost recs = parsed->Ok_0;
        assert(decode_result(bs) == Ok::<(HeaderModel, Seq<RecordModel>), ParseError>((header_at(bs), recs)));
        let vars = live_variables(&variables, Ghost(recs));
        Ok((vars, EDK2VariableStore { header, variables }))
    }
}

} // verus!
