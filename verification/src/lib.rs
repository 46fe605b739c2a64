//! Time-ordered 128-bit identifiers ("snowflakes") that independent nodes can
//! produce without coordinating with one another.
//!
//! A snowflake is the sum of five fields, each moved to its own bit offset:
//! the milliseconds elapsed since the Ferris epoch, a model type chosen by the
//! caller, a sequence number, the API version of the call site and the
//! identifier of the producing node.
//!
//! A [`SnowflakeGenerator`] holds the sequence counter. It never sleeps: where
//! the system clock has rolled back, [`SnowflakeGenerator::rollback_delay`]
//! says for how long the caller should wait before it calls
//! [`generate_snowflake`].

pub mod clock;
pub mod generator;
pub mod layout;

use crate::clock::{unix_time_millis, ClockError};
use crate::generator::SnowflakeGenerator;
use crate::layout::{snowflake_value, timestamp_carry, timestamp_field};
use vstd::prelude::*;

verus! {

/// The start of the Ferris epoch, in milliseconds since the Unix epoch:
/// 1 January 2020, 00:00 UTC.
pub const FERRIS_EPOCH: u128 = 1_577_836_800_000;

/// The Ferris epoch time of a moment given in milliseconds since the Unix
/// epoch: the milliseconds elapsed since the start of the Ferris epoch, and
/// zero for every moment before it.
pub open spec fn epoch_time(unix_millis: nat) -> nat {
    if unix_millis >= FERRIS_EPOCH {
        (unix_millis - FERRIS_EPOCH) as nat
    } else {
        0
    }
}

/// Converts milliseconds since the Unix epoch to Ferris epoch time. A moment
/// before the start of the Ferris epoch gives zero, as its first millisecond
/// does.
pub fn since_ferris_epoch(unix_millis: u128) -> (time: u128)
    ensures
        time == epoch_time(unix_millis as nat),
{
    unix_millis.saturating_sub(FERRIS_EPOCH)
}

/// The Ferris epoch time of a clock reading in milliseconds since the Unix
/// epoch. A reading that failed stays the failure that it is.
pub fn epoch_time_at(reading: Result<u128, ClockError>) -> (time: Result<u128, ClockError>)
    ensures
        match reading {
            Ok(unix_millis) => time == Ok::<u128, ClockError>(
                epoch_time(unix_millis as nat) as u128,
            ),
            Err(error) => time == Err::<u128, ClockError>(error),
        },
{
    match reading {
        Ok(unix_millis) => Ok(since_ferris_epoch(unix_millis)),
        Err(error) => Err(error),
    }
}

/// Returns the current Ferris epoch time, in milliseconds.
///
/// Returns 0 before the epoch, as well as at the first millisecond of the
/// epoch. Fails where the system clock is behind the Unix epoch. Whatever the
/// clock reads, the time returned is that of a moment that 128 bits can hold
/// in milliseconds since the Unix epoch.
pub fn get_epoch_time() -> (time: Result<u128, ClockError>)
    ensures
        time matches Ok(millis) ==> millis + FERRIS_EPOCH <= u128::MAX,
        time matches Err(error) ==> error == ClockError::BehindUnixEpoch,
{
    epoch_time_at(unix_time_millis())
}

/// Generates the snowflake for a clock reading in milliseconds since the
/// Ferris epoch, and advances the generator. For a reading that failed
/// nothing is generated: the failure is handed on and the generator is left
/// as it was. A generator that watches the clock keeps the reading, which
/// must then be less than the largest 128-bit number.
pub fn generate_snowflake_at<const API_VERSION: u8>(
    generator: &mut SnowflakeGenerator,
    reading: Result<u128, ClockError>,
    model_type: u8,
    node_id: u16,
) -> (id: Result<u128, ClockError>)
    requires
        reading matches Ok(current_time) ==> (old(generator)@.last_time_created is Some
            ==> current_time < u128::MAX),
    ensures
        match reading {
            Ok(current_time) => {
                &&& id matches Ok(id) && id == old(generator)@.snowflake(
                    current_time,
                    model_type,
                    API_VERSION,
                    node_id,
                )
                &&& final(generator)@ == old(generator)@.next(current_time)
            },
            Err(error) => id == Err::<u128, ClockError>(error) && final(generator)@ == old(
                generator,
            )@,
        },
{
    match reading {
        Ok(current_time) => Ok(generator.issue::<API_VERSION>(current_time, model_type, node_id)),
        Err(error) => Err(error),
    }
}

/// Generates a snowflake from the API version, the model type and the node
/// identifier, at the time that the system clock reads.
///
/// The clock is read once. The snowflake is the one that the generator
/// issues for that reading, and the generator advances as it does there.
/// Where the clock is behind the Unix epoch the call fails and the generator
/// is left as it was.
pub fn generate_snowflake<const API_VERSION: u8>(
    generator: &mut SnowflakeGenerator,
    model_type: u8,
    node_id: u16,
) -> (id: Result<u128, ClockError>)
    ensures
        match id {
            Ok(id) => exists|current_time: u128|
                {
                    &&& current_time + FERRIS_EPOCH <= u128::MAX
                    &&& id == old(generator)@.snowflake(
                        current_time,
                        model_type,
                        API_VERSION,
                        node_id,
                    )
                    &&& final(generator)@ == #[trigger] old(generator)@.next(current_time)
                },
            Err(error) => error == ClockError::BehindUnixEpoch && final(generator)@ == old(
                generator,
            )@,
        },
{
    generate_snowflake_at::<API_VERSION>(generator, get_epoch_time(), model_type, node_id)
}

/// The timestamp field of a snowflake, plus the start of the Ferris epoch, is
/// the moment for which the snowflake was generated, in milliseconds since the
/// Unix epoch. This holds of every moment from the start of the Ferris epoch
/// on whose epoch time fits the 64 bits of the field, where the model type
/// and the sequence number add nothing to the field.
pub proof fn lemma_timestamp_gives_unix_time(
    unix_millis: u128,
    model_type: u8,
    sequence: u16,
    api_version: u8,
    node_id: u16,
)
    requires
        FERRIS_EPOCH <= unix_millis,
        unix_millis - FERRIS_EPOCH < 0x1_0000_0000_0000_0000,
        timestamp_carry(model_type as nat, sequence as nat) == 0,
    ensures
        timestamp_field(
            snowflake_value(
                epoch_time(unix_millis as nat),
                model_type as nat,
                sequence as nat,
                api_version as nat,
                node_id as nat,
            ),
        ) + FERRIS_EPOCH == unix_millis,
{
    crate::layout::lemma_fields_of_snowflake(
        (unix_millis - FERRIS_EPOCH) as u128,
        model_type,
        sequence,
        api_version,
        node_id,
    );
}

} // verus!
