//! The bit layout of a snowflake.
//!
//! | field       | bits      | place value |
//! |-------------|-----------|-------------|
//! | reserved    | 0 to 17   |             |
//! | node id     | 18 to 33  | 2^18        |
//! | API version | 34 to 41  | 2^34        |
//! | sequence    | 42 to 55  | 2^42        |
//! | model type  | 56 to 63  | 2^56        |
//! | timestamp   | 64 to 127 | 2^64        |
//!
//! The fields are added, not masked. The sequence number has sixteen bits
//! and its field fourteen: its upper two bits are added to the model type,
//! and what leaves the model type field is added to the timestamp. The
//! reserved bits are always zero.

use vstd::arithmetic::div_mod::lemma_fundamental_div_mod_converse;
use vstd::prelude::*;

verus! {

/// Place value of the node identifier: 2^18.
pub const NODE_ID_UNIT: u128 = 0x4_0000;

/// Place value of the API version: 2^34.
pub const API_VERSION_UNIT: u128 = 0x4_0000_0000;

/// Place value of the sequence number: 2^42.
pub const SEQUENCE_UNIT: u128 = 0x400_0000_0000;

/// Place value of the model type: 2^56.
pub const MODEL_TYPE_UNIT: u128 = 0x100_0000_0000_0000;

/// Place value of the timestamp: 2^64.
pub const TIMESTAMP_UNIT: u128 = 0x1_0000_0000_0000_0000;

/// The snowflake that the five fields make: each field times its place
/// value, added up, and reduced modulo 2^128.
pub open spec fn snowflake_value(
    timestamp: nat,
    model_type: nat,
    sequence: nat,
    api_version: nat,
    node_id: nat,
) -> nat {
    (timestamp * TIMESTAMP_UNIT + model_type * MODEL_TYPE_UNIT + sequence * SEQUENCE_UNIT
        + api_version * API_VERSION_UNIT + node_id * NODE_ID_UNIT) as nat
        % 0x1_0000_0000_0000_0000_0000_0000_0000_0000nat
}

/// The timestamp field of an identifier: bits 64 to 127.
pub open spec fn timestamp_field(id: nat) -> nat {
    id / TIMESTAMP_UNIT as nat
}

/// The model type field of an identifier: bits 56 to 63.
pub open spec fn model_type_field(id: nat) -> nat {
    id / MODEL_TYPE_UNIT as nat % 0x100
}

/// The sixteen bits from bit 42 up, into which the sequence number is added.
/// The upper two of them are also the lower two of the model type field.
pub open spec fn sequence_field(id: nat) -> nat {
    id / SEQUENCE_UNIT as nat % 0x1_0000
}

/// The API version field of an identifier: bits 34 to 41.
pub open spec fn api_version_field(id: nat) -> nat {
    id / API_VERSION_UNIT as nat % 0x100
}

/// The node identifier field of an identifier: bits 18 to 33.
pub open spec fn node_id_field(id: nat) -> nat {
    id / NODE_ID_UNIT as nat % 0x1_0000
}

/// The reserved bits of an identifier: bits 0 to 17.
pub open spec fn reserved_field(id: nat) -> nat {
    id % NODE_ID_UNIT as nat
}

/// What the sequence number adds to the model type field: its upper two
/// bits, which lie at and above bit 56 once it is shifted to bit 42.
pub open spec fn sequence_overflow(sequence: nat) -> nat {
    sequence / 0x4000
}

/// What the model type and the sequence number together add to the timestamp
/// field: 1 where their sum leaves the lower 64 bits, else 0.
pub open spec fn timestamp_carry(model_type: nat, sequence: nat) -> nat {
    (model_type + sequence_overflow(sequence)) / 0x100
}

/// Packs the five fields into one snowflake by shifting each to its offset
/// and adding them up. Bits that leave the 128-bit range are dropped.
pub fn pack_snowflake(
    timestamp: u128,
    model_type: u8,
    sequence: u16,
    api_version: u8,
    node_id: u16,
) -> (id: u128)
    ensures
        id == snowflake_value(
            timestamp as nat,
            model_type as nat,
            sequence as nat,
            api_version as nat,
            node_id as nat,
        ),
{
    let high: u128 = timestamp << 64;
    let model: u128 = (model_type as u128) << 56;
    let seq: u128 = (sequence as u128) << 42;
    let version: u128 = (api_version as u128) << 34;
    let node: u128 = (node_id as u128) << 18;
    assert(high == (timestamp % 0x1_0000_0000_0000_0000) * 0x1_0000_0000_0000_0000) by (bit_vector)
        requires
            high == timestamp << 64,
    ;
    assert(model == model_type * 0x100_0000_0000_0000) by (bit_vector)
        requires
            model == (model_type as u128) << 56,
    ;
    assert(seq == sequence * 0x400_0000_0000) by (bit_vector)
        requires
            seq == (sequence as u128) << 42,
    ;
    assert(version == api_version * 0x4_0000_0000) by (bit_vector)
        requires
            version == (api_version as u128) << 34,
    ;
    assert(node == node_id * 0x4_0000) by (bit_vector)
        requires
            node == (node_id as u128) << 18,
    ;
    let low: u128 = model + seq + version + node;
    let id: u128 = high.wrapping_add(low);
    proof {
        let wraps: int = timestamp as int / 0x1_0000_0000_0000_0000 + if high + low > u128::MAX {
            1int
        } else {
            0int
        };
        lemma_fundamental_div_mod_converse(
            timestamp * TIMESTAMP_UNIT + low,
            0x1_0000_0000_0000_0000_0000_0000_0000_0000int,
            wraps,
            id as int,
        );
    }
    id
}

/// An identifier written out digit by digit: each field within its width,
/// times its place value.
spec fn from_digits(high: int, model: int, low_sequence: int, version: int, node: int) -> int {
    high * TIMESTAMP_UNIT + model * MODEL_TYPE_UNIT + low_sequence * SEQUENCE_UNIT + version
        * API_VERSION_UNIT + node * NODE_ID_UNIT
}

/// The digits of a snowflake in terms of the fields that went in.
proof fn lemma_snowflake_digits(
    timestamp: u128,
    model_type: u8,
    sequence: u16,
    api_version: u8,
    node_id: u16,
)
    ensures
        snowflake_value(
            timestamp as nat,
            model_type as nat,
            sequence as nat,
            api_version as nat,
            node_id as nat,
        ) == from_digits(
            (timestamp + timestamp_carry(model_type as nat, sequence as nat))
                % 0x1_0000_0000_0000_0000,
            (model_type + sequence_overflow(sequence as nat)) % 0x100,
            sequence as int % 0x4000,
            api_version as int,
            node_id as int,
        ),
{
    let overflow: int = sequence as int / 0x4000;
    let low_sequence: int = sequence as int % 0x4000;
    let carry: int = (model_type + overflow) / 0x100;
    let model: int = (model_type + overflow) % 0x100;
    let high: int = (timestamp + carry) % 0x1_0000_0000_0000_0000;
    let wraps: int = (timestamp + carry) / 0x1_0000_0000_0000_0000;
    assert(sequence == overflow * 0x4000 + low_sequence);
    assert(model_type + overflow == carry * 0x100 + model);
    assert(timestamp + carry == wraps * 0x1_0000_0000_0000_0000 + high);
    let digits: int = from_digits(high, model, low_sequence, api_version as int, node_id as int);
    let sum: int = timestamp * 0x1_0000_0000_0000_0000 + model_type * 0x100_0000_0000_0000
        + sequence * 0x400_0000_0000 + api_version * 0x4_0000_0000 + node_id * 0x4_0000;
    assert(sum == wraps * 0x1_0000_0000_0000_0000_0000_0000_0000_0000int + digits);
    assert(0 <= digits < 0x1_0000_0000_0000_0000_0000_0000_0000_0000int);
    lemma_fundamental_div_mod_converse(
        sum,
        0x1_0000_0000_0000_0000_0000_0000_0000_0000int,
        wraps,
        digits,
    );
}

/// The reserved bits and the node identifier of an identifier given by its
/// digits.
proof fn lemma_digits_low(high: int, model: int, low_sequence: int, version: int, node: int)
    requires
        0 <= high,
        0 <= model,
        0 <= low_sequence,
        0 <= version,
        0 <= node < 0x1_0000,
    ensures
        from_digits(high, model, low_sequence, version, node) % (NODE_ID_UNIT as int) == 0,
        from_digits(high, model, low_sequence, version, node) / (NODE_ID_UNIT as int) % 0x1_0000
            == node,
{
    let id: int = from_digits(high, model, low_sequence, version, node);
    let above: int = high * 0x4000_0000 + model * 0x40_0000 + low_sequence * 0x100 + version;
    lemma_fundamental_div_mod_converse(id, NODE_ID_UNIT as int, above * 0x1_0000 + node, 0);
    lemma_fundamental_div_mod_converse(above * 0x1_0000 + node, 0x1_0000, above, node);
}

/// The API version of an identifier given by its digits.
proof fn lemma_digits_version(high: int, model: int, low_sequence: int, version: int, node: int)
    requires
        0 <= high,
        0 <= model,
        0 <= low_sequence,
        0 <= version < 0x100,
        0 <= node < 0x1_0000,
    ensures
        from_digits(high, model, low_sequence, version, node) / (API_VERSION_UNIT as int) % 0x100
            == version,
{
    let id: int = from_digits(high, model, low_sequence, version, node);
    let above: int = high * 0x40_0000 + model * 0x4000 + low_sequence;
    lemma_fundamental_div_mod_converse(
        id,
        API_VERSION_UNIT as int,
        above * 0x100 + version,
        node * NODE_ID_UNIT,
    );
    lemma_fundamental_div_mod_converse(above * 0x100 + version, 0x100, above, version);
}

/// The sequence field of an identifier given by its digits.
proof fn lemma_digits_sequence(high: int, model: int, low_sequence: int, version: int, node: int)
    requires
        0 <= high,
        0 <= model,
        0 <= low_sequence < 0x4000,
        0 <= version < 0x100,
        0 <= node < 0x1_0000,
    ensures
        from_digits(high, model, low_sequence, version, node) / (SEQUENCE_UNIT as int) % 0x1_0000
            == model % 4 * 0x4000 + low_sequence,
{
    let id: int = from_digits(high, model, low_sequence, version, node);
    let window: int = high * 0x40_0000 + model * 0x4000 + low_sequence;
    lemma_fundamental_div_mod_converse(
        id,
        SEQUENCE_UNIT as int,
        window,
        version * API_VERSION_UNIT + node * NODE_ID_UNIT,
    );
    lemma_fundamental_div_mod_converse(
        window,
        0x1_0000,
        high * 0x40 + model / 4,
        model % 4 * 0x4000 + low_sequence,
    );
}

/// The model type and the timestamp of an identifier given by its digits.
proof fn lemma_digits_high(high: int, model: int, low_sequence: int, version: int, node: int)
    requires
        0 <= high,
        0 <= model < 0x100,
        0 <= low_sequence < 0x4000,
        0 <= version < 0x100,
        0 <= node < 0x1_0000,
    ensures
        from_digits(high, model, low_sequence, version, node) / (MODEL_TYPE_UNIT as int) % 0x100
            == model,
        from_digits(high, model, low_sequence, version, node) / (TIMESTAMP_UNIT as int) == high,
{
    let id: int = from_digits(high, model, low_sequence, version, node);
    let below_model: int = low_sequence * SEQUENCE_UNIT + version * API_VERSION_UNIT + node
        * NODE_ID_UNIT;
    lemma_fundamental_div_mod_converse(id, MODEL_TYPE_UNIT as int, high * 0x100 + model, below_model);
    lemma_fundamental_div_mod_converse(high * 0x100 + model, 0x100, high, model);
    lemma_fundamental_div_mod_converse(
        id,
        TIMESTAMP_UNIT as int,
        high,
        model * MODEL_TYPE_UNIT + below_model,
    );
}

/// Reading the fields back. The node identifier and the API version come
/// back as they went in, and the reserved bits are zero. The sequence number
/// comes back in its lower fourteen bits; its upper two bits are added to the
/// model type, and what leaves the model type field is added to the
/// timestamp, which keeps its lower 64 bits.
pub proof fn lemma_fields_of_snowflake(
    timestamp: u128,
    model_type: u8,
    sequence: u16,
    api_version: u8,
    node_id: u16,
)
    ensures
        ({
            let id = snowflake_value(
                timestamp as nat,
                model_type as nat,
                sequence as nat,
                api_version as nat,
                node_id as nat,
            );
            &&& reserved_field(id) == 0
            &&& node_id_field(id) == node_id
            &&& api_version_field(id) == api_version
            &&& sequence_field(id) % 0x4000 == sequence % 0x4000
            &&& sequence_field(id) == (sequence + model_type % 4 * 0x4000) % 0x1_0000
            &&& model_type_field(id) == (model_type + sequence_overflow(sequence as nat)) % 0x100
            &&& timestamp_field(id) == (timestamp + timestamp_carry(
                model_type as nat,
                sequence as nat,
            )) % 0x1_0000_0000_0000_0000
        }),
{
    let high: int = (timestamp + timestamp_carry(model_type as nat, sequence as nat))
        % 0x1_0000_0000_0000_0000;
    let model: int = (model_type + sequence_overflow(sequence as nat)) % 0x100;
    let low_sequence: int = sequence as int % 0x4000;
    lemma_snowflake_digits(timestamp, model_type, sequence, api_version, node_id);
    lemma_digits_low(high, model, low_sequence, api_version as int, node_id as int);
    lemma_digits_version(high, model, low_sequence, api_version as int, node_id as int);
    lemma_digits_sequence(high, model, low_sequence, api_version as int, node_id as int);
    lemma_digits_high(high, model, low_sequence, api_version as int, node_id as int);
    lemma_sequence_window(model_type as int, sequence as int);
}

/// The sequence field in terms of the sequence number and the model type.
proof fn lemma_sequence_window(model_type: int, sequence: int)
    requires
        0 <= model_type < 0x100,
        0 <= sequence < 0x1_0000,
    ensures
        (model_type + sequence / 0x4000) % 0x100 % 4 * 0x4000 + sequence % 0x4000 == (sequence
            + model_type % 4 * 0x4000) % 0x1_0000,
{
    let overflow: int = sequence / 0x4000;
    let shared: int = model_type % 4 + overflow;
    assert((model_type + overflow) % 0x100 % 4 == shared % 4);
    lemma_fundamental_div_mod_converse(
        sequence + model_type % 4 * 0x4000,
        0x1_0000,
        shared / 4,
        shared % 4 * 0x4000 + sequence % 0x4000,
    );
}

/// Where the model type is at most 252, nothing reaches the timestamp field:
/// it holds the lower 64 bits of the timestamp that went in.
pub proof fn lemma_timestamp_kept(
    timestamp: u128,
    model_type: u8,
    sequence: u16,
    api_version: u8,
    node_id: u16,
)
    requires
        model_type <= 252,
    ensures
        timestamp_field(
            snowflake_value(
                timestamp as nat,
                model_type as nat,
                sequence as nat,
                api_version as nat,
                node_id as nat,
            ),
        ) == timestamp % 0x1_0000_0000_0000_0000,
{
    lemma_fields_of_snowflake(timestamp, model_type, sequence, api_version, node_id);
}

/// Two snowflakes that differ only in their sequence numbers, and perhaps in
/// their timestamps, are different identifiers, and differ in their sequence
/// fields.
pub proof fn lemma_sequence_tells_apart(
    timestamp_a: u128,
    timestamp_b: u128,
    model_type: u8,
    sequence_a: u16,
    sequence_b: u16,
    api_version: u8,
    node_id: u16,
)
    requires
        sequence_a != sequence_b,
    ensures
        sequence_field(
            snowflake_value(
                timestamp_a as nat,
                model_type as nat,
                sequence_a as nat,
                api_version as nat,
                node_id as nat,
            ),
        ) != sequence_field(
            snowflake_value(
                timestamp_b as nat,
                model_type as nat,
                sequence_b as nat,
                api_version as nat,
                node_id as nat,
            ),
        ),
        snowflake_value(
            timestamp_a as nat,
            model_type as nat,
            sequence_a as nat,
            api_version as nat,
            node_id as nat,
        ) != snowflake_value(
            timestamp_b as nat,
            model_type as nat,
            sequence_b as nat,
            api_version as nat,
            node_id as nat,
        ),
{
    lemma_fields_of_snowflake(timestamp_a, model_type, sequence_a, api_version, node_id);
    lemma_fields_of_snowflake(timestamp_b, model_type, sequence_b, api_version, node_id);
    lemma_shifted_residues_differ(
        sequence_a as int,
        sequence_b as int,
        model_type as int % 4 * 0x4000,
    );
}

/// Adding the same amount to two different sixteen-bit numbers leaves them
/// different modulo 2^16.
pub(crate) proof fn lemma_shifted_residues_differ(a: int, b: int, shift: int)
    requires
        0 <= a < 0x1_0000,
        0 <= b < 0x1_0000,
        a != b,
    ensures
        (a + shift) % 0x1_0000 != (b + shift) % 0x1_0000,
{
}

} // verus!
