//! The bit layout of an identifier: fields, packing and unpacking.
use vstd::prelude::*;

verus! {

/// Largest worker id: the field is 5 bits wide.
pub const MAX_WORKER_ID: u8 = 31;

/// Largest data-center id: the field is 5 bits wide.
pub const MAX_DATA_CENTER_ID: u8 = 31;

/// Largest sequence number: the field is 12 bits wide.
pub const MAX_SEQUENCE: u16 = 4095;

/// Largest timestamp that fits above the 22 low bits of a 128-bit identifier.
pub const MAX_TIMESTAMP: u128 = 0x3ff_ffff_ffff_ffff_ffff_ffff_ffff;

/// The identifier with the given fields, as a number: timestamp shifted left by
/// 22 bits, data-center id by 17, worker id by 12, sequence unshifted.
pub open spec fn compose_id(timestamp: int, data_center_id: int, worker_id: int, sequence: int) -> int {
    timestamp * 0x40_0000 + data_center_id * 0x2_0000 + worker_id * 0x1000 + sequence
}

/// Whether each field lies within its width.
pub open spec fn fields_in_range(timestamp: int, data_center_id: int, worker_id: int, sequence: int) -> bool {
    &&& 0 <= timestamp <= MAX_TIMESTAMP
    &&& 0 <= data_center_id <= MAX_DATA_CENTER_ID
    &&& 0 <= worker_id <= MAX_WORKER_ID
    &&& 0 <= sequence <= MAX_SEQUENCE
}

/// The timestamp field of an identifier: its bits from the 22nd up.
pub open spec fn id_timestamp(id: int) -> int {
    id / 0x40_0000
}

/// The data-center field of an identifier: bits 17 to 21.
pub open spec fn id_data_center(id: int) -> int {
    (id / 0x2_0000) % 32
}

/// The worker field of an identifier: bits 12 to 16.
pub open spec fn id_worker(id: int) -> int {
    (id / 0x1000) % 32
}

/// The sequence field of an identifier: bits 0 to 11.
pub open spec fn id_sequence(id: int) -> int {
    id % 0x1000
}

/// The four fields of an identifier.
#[derive(Clone, Copy, Debug, PartialEq, Eq, Structural)]
pub struct IdFields {
    pub timestamp: u128,
    pub data_center_id: u8,
    pub worker_id: u8,
    pub sequence: u16,
}

/// Packs the four fields into one identifier.
pub(crate) fn pack_id(timestamp: u128, data_center_id: u8, worker_id: u8, sequence: u16) -> (id: u128)
    requires
        fields_in_range(timestamp as int, data_center_id as int, worker_id as int, sequence as int),
    ensures
        id as int == compose_id(timestamp as int, data_center_id as int, worker_id as int, sequence as int),
{
    let d = data_center_id as u128;
    let w = worker_id as u128;
    let s = sequence as u128;
    assert((timestamp << 22u128) | (d << 17u128) | (w << 12u128) | s
        == timestamp * 0x40_0000 + d * 0x2_0000 + w * 0x1000 + s) by (bit_vector)
        requires
            timestamp <= 0x3ff_ffff_ffff_ffff_ffff_ffff_ffffu128,
            d <= 31u128,
            w <= 31u128,
            s <= 4095u128,
    ;
    (timestamp << 22u128) | (d << 17u128) | (w << 12u128) | s
}

/// Splits an identifier into its four fields.
pub fn decode_id(id: u128) -> (r: IdFields)
    ensures
        r.timestamp as int == id_timestamp(id as int),
        r.data_center_id as int == id_data_center(id as int),
        r.worker_id as int == id_worker(id as int),
        r.sequence as int == id_sequence(id as int),
{
    assert(id >> 22u128 == id / 0x40_0000) by (bit_vector);
    assert((id >> 17u128) & 31u128 == (id / 0x2_0000) % 32) by (bit_vector);
    assert((id >> 12u128) & 31u128 == (id / 0x1000) % 32) by (bit_vector);
    assert(id & 4095u128 == id % 0x1000) by (bit_vector);
    IdFields {
        timestamp: id >> 22u128,
        data_center_id: ((id >> 17u128) & 31u128) as u8,
        worker_id: ((id >> 12u128) & 31u128) as u8,
        sequence: (id & 4095u128) as u16,
    }
}

/// Decoding a packed identifier gives back each of its fields, when each lies
/// within its width.
pub proof fn lemma_fields_round_trip(timestamp: int, data_center_id: int, worker_id: int, sequence: int)
    requires
        fields_in_range(timestamp, data_center_id, worker_id, sequence),
    ensures
        id_timestamp(compose_id(timestamp, data_center_id, worker_id, sequence)) == timestamp,
        id_data_center(compose_id(timestamp, data_center_id, worker_id, sequence)) == data_center_id,
        id_worker(compose_id(timestamp, data_center_id, worker_id, sequence)) == worker_id,
        id_sequence(compose_id(timestamp, data_center_id, worker_id, sequence)) == sequence,
{
    let id = compose_id(timestamp, data_center_id, worker_id, sequence);
    let low = data_center_id * 0x2_0000 + worker_id * 0x1000 + sequence;
    assert(0 <= low < 0x40_0000);
    assert(id == timestamp * 0x40_0000 + low);
    assert(id / 0x2_0000 == timestamp * 32 + data_center_id);
    assert(id / 0x1000 == (timestamp * 32 + data_center_id) * 32 + worker_id);
}

/// Packing is strictly increasing in the pair (timestamp, sequence) ordered
/// lexicographically, for fixed data-center and worker ids.
pub proof fn lemma_compose_ordered(t1: int, s1: int, t2: int, s2: int, data_center_id: int, worker_id: int)
    requires
        fields_in_range(t1, data_center_id, worker_id, s1),
        fields_in_range(t2, data_center_id, worker_id, s2),
        t1 < t2 || (t1 == t2 && s1 < s2),
    ensures
        compose_id(t1, data_center_id, worker_id, s1) < compose_id(t2, data_center_id, worker_id, s2),
{
}

} // verus!
