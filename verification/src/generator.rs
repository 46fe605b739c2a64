//! The generator: a sequence counter, and the timestamp of the snowflake
//! generated last where the generator watches for the clock rolling back.

use crate::layout::{
    lemma_fields_of_snowflake, lemma_sequence_tells_apart, lemma_shifted_residues_differ,
    pack_snowflake, sequence_field, snowflake_value, timestamp_carry, timestamp_field,
};
use vstd::prelude::*;

verus! {

/// What a generator holds, as plain values.
pub struct GeneratorState {
    /// The sequence number that the next snowflake gets.
    pub sequence: u16,
    /// The timestamp of the snowflake generated last, or zero before the
    /// first; `None` where the generator does not watch the clock.
    pub last_time_created: Option<u128>,
}

impl GeneratorState {
    /// For how many milliseconds generation is to pause at `current_time`:
    /// where the clock reads less than the timestamp generated last, until
    /// the clock has passed that timestamp.
    pub open spec fn rollback_delay(self, current_time: u128) -> Option<nat> {
        match self.last_time_created {
            Some(last) if current_time < last => Some((last + 1 - current_time) as nat),
            _ => None,
        }
    }

    /// The snowflake that is generated next, at `current_time`.
    pub open spec fn snowflake(
        self,
        current_time: u128,
        model_type: u8,
        api_version: u8,
        node_id: u16,
    ) -> nat {
        snowflake_value(
            current_time as nat,
            model_type as nat,
            self.sequence as nat,
            api_version as nat,
            node_id as nat,
        )
    }

    /// The state after a snowflake was generated at `current_time`: the
    /// sequence number has advanced by one, from 65535 to 0, and the
    /// timestamp is kept where the generator watches the clock.
    pub open spec fn next(self, current_time: u128) -> GeneratorState {
        GeneratorState {
            sequence: if self.sequence == u16::MAX {
                0
            } else {
                (self.sequence + 1) as u16
            },
            last_time_created: if self.last_time_created is Some {
                Some(current_time)
            } else {
                None
            },
        }
    }

    /// The state after one snowflake was generated at each of `times`, in
    /// their order.
    pub open spec fn after(self, times: Seq<u128>) -> GeneratorState
        decreases times.len(),
    {
        if times.len() == 0 {
            self
        } else {
            self.after(times.drop_last()).next(times.last())
        }
    }
}

/// A source of snowflakes. No two snowflakes that it generates in a row for
/// the same model type, API version and node are equal, up to 65536 of them.
pub struct SnowflakeGenerator {
    counter: u16,
    last_time_created: Option<u128>,
}

impl View for SnowflakeGenerator {
    type V = GeneratorState;

    closed spec fn view(&self) -> GeneratorState {
        GeneratorState { sequence: self.counter, last_time_created: self.last_time_created }
    }
}

impl SnowflakeGenerator {
    /// The timestamp kept is below the largest 128-bit number, so that the
    /// millisecond after it can be written down.
    #[verifier::type_invariant]
    spec fn timestamp_has_successor(self) -> bool {
        self.last_time_created matches Some(last) ==> last < u128::MAX
    }

    /// A generator that watches for the clock rolling back. Its sequence
    /// counter starts at zero.
    pub fn new() -> (generator: Self)
        ensures
            generator@ == (GeneratorState { sequence: 0, last_time_created: Some(0) }),
    {
        SnowflakeGenerator { counter: 0, last_time_created: Some(0) }
    }

    /// A generator that does not watch the clock: it keeps no timestamp and
    /// never asks for a pause. Its sequence counter starts at zero.
    pub fn without_time_safety_checks() -> (generator: Self)
        ensures
            generator@ == (GeneratorState { sequence: 0, last_time_created: None }),
    {
        SnowflakeGenerator { counter: 0, last_time_created: None }
    }

    /// Tells whether the clock has rolled back: where `current_time` is less
    /// than the timestamp of the snowflake generated last, the number of
    /// milliseconds to wait before generating the next one.
    pub fn rollback_delay(&self, current_time: u128) -> (delay: Option<u128>)
        ensures
            match delay {
                Some(millis) => self@.rollback_delay(current_time) == Some(millis as nat),
                None => self@.rollback_delay(current_time) is None,
            },
    {
        proof {
            use_type_invariant(self);
        }
        match self.last_time_created {
            Some(last) => {
                if current_time < last {
                    Some(last + 1 - current_time)
                } else {
                    None
                }
            },
            None => None,
        }
    }

    /// Generates the snowflake for `current_time`, in milliseconds since the
    /// Ferris epoch, and advances the sequence counter. A generator that
    /// watches the clock keeps `current_time`, which must then be less than
    /// the largest 128-bit number.
    pub fn issue<const API_VERSION: u8>(
        &mut self,
        current_time: u128,
        model_type: u8,
        node_id: u16,
    ) -> (id: u128)
        requires
            old(self)@.last_time_created is Some ==> current_time < u128::MAX,
        ensures
            id == old(self)@.snowflake(current_time, model_type, API_VERSION, node_id),
            final(self)@ == old(self)@.next(current_time),
    {
        proof {
            use_type_invariant(&*self);
        }
        let sequence: u16 = self.counter;
        self.counter = sequence.wrapping_add(1);
        if self.last_time_created.is_some() {
            self.last_time_created = Some(current_time);
        }
        pack_snowflake(current_time, model_type, sequence, API_VERSION, node_id)
    }
}

/// After a run of snowflakes the sequence number has advanced by their
/// count, modulo 65536.
proof fn lemma_sequence_after(state: GeneratorState, times: Seq<u128>)
    ensures
        state.after(times).sequence == (state.sequence + times.len()) % 0x1_0000,
    decreases times.len(),
{
    if times.len() > 0 {
        lemma_sequence_after(state, times.drop_last());
    }
}

/// Two snowflakes generated one after the other for the same model type, API
/// version and node are different, whatever the clock read at either.
pub proof fn lemma_successive_snowflakes_differ(
    state: GeneratorState,
    first_time: u128,
    second_time: u128,
    model_type: u8,
    api_version: u8,
    node_id: u16,
)
    ensures
        state.snowflake(first_time, model_type, api_version, node_id) != state.next(
            first_time,
        ).snowflake(second_time, model_type, api_version, node_id),
{
    lemma_sequence_tells_apart(
        first_time,
        second_time,
        model_type,
        state.sequence,
        state.next(first_time).sequence,
        api_version,
        node_id,
    );
}

/// Of up to 65536 snowflakes generated in a row for the same model type, API
/// version and node, at the times `times`, any two are different, and so are
/// their sequence fields. The times need not differ.
pub proof fn lemma_run_of_snowflakes_distinct(
    state: GeneratorState,
    times: Seq<u128>,
    i: int,
    j: int,
    model_type: u8,
    api_version: u8,
    node_id: u16,
)
    requires
        times.len() <= 0x1_0000,
        0 <= i < j < times.len(),
    ensures
        state.after(times.take(i)).snowflake(times[i], model_type, api_version, node_id)
            != state.after(times.take(j)).snowflake(times[j], model_type, api_version, node_id),
        sequence_field(
            state.after(times.take(i)).snowflake(times[i], model_type, api_version, node_id),
        ) != sequence_field(
            state.after(times.take(j)).snowflake(times[j], model_type, api_version, node_id),
        ),
{
    lemma_sequence_after(state, times.take(i));
    lemma_sequence_after(state, times.take(j));
    lemma_shifted_residues_differ(i, j, state.sequence as int);
    lemma_sequence_tells_apart(
        times[i],
        times[j],
        model_type,
        state.after(times.take(i)).sequence,
        state.after(times.take(j)).sequence,
        api_version,
        node_id,
    );
}

/// Two numbers less than 65536 apart differ modulo 65536 after the same
/// amount was added to both.
proof fn lemma_near_residues_differ(a: int, b: int, shift: int)
    requires
        0 < b - a < 0x1_0000,
    ensures
        (a + shift) % 0x1_0000 != (b + shift) % 0x1_0000,
{
}

/// A run of snowflakes of any length, generated in a row for the same model
/// type, API version and node at the times `times`, holds no snowflake twice,
/// provided that the clock has moved on whenever the sequence counter comes
/// round: each snowflake is of an earlier millisecond than those generated
/// 65536 or more places after it. The times are below 2^64, so that the
/// timestamp field can hold them.
pub proof fn lemma_long_run_of_snowflakes_distinct(
    state: GeneratorState,
    times: Seq<u128>,
    i: int,
    j: int,
    model_type: u8,
    api_version: u8,
    node_id: u16,
)
    requires
        0 <= i < j < times.len(),
        forall|a: int| 0 <= a < times.len() ==> times[a] < 0x1_0000_0000_0000_0000,
        forall|a: int, b: int|
            0 <= a && a + 0x1_0000 <= b < times.len() ==> times[a] < times[b],
    ensures
        state.after(times.take(i)).snowflake(times[i], model_type, api_version, node_id)
            != state.after(times.take(j)).snowflake(times[j], model_type, api_version, node_id),
{
    let first = state.after(times.take(i));
    let second = state.after(times.take(j));
    lemma_sequence_after(state, times.take(i));
    lemma_sequence_after(state, times.take(j));
    if first.sequence != second.sequence {
        lemma_sequence_tells_apart(
            times[i],
            times[j],
            model_type,
            first.sequence,
            second.sequence,
            api_version,
            node_id,
        );
    } else {
        if j - i < 0x1_0000 {
            lemma_near_residues_differ(i, j, state.sequence as int);
        }
        assert(times[i] < times[j]);
        lemma_fields_of_snowflake(times[i], model_type, first.sequence, api_version, node_id);
        lemma_fields_of_snowflake(times[j], model_type, second.sequence, api_version, node_id);
        lemma_timestamps_differ(
            times[i] as int,
            times[j] as int,
            timestamp_carry(model_type as nat, first.sequence as nat) as int,
        );
    }
}

/// Two different numbers below 2^64 differ modulo 2^64 after the same amount
/// was added to both.
proof fn lemma_timestamps_differ(a: int, b: int, shift: int)
    requires
        0 <= a < 0x1_0000_0000_0000_0000,
        0 <= b < 0x1_0000_0000_0000_0000,
        a != b,
    ensures
        (a + shift) % 0x1_0000_0000_0000_0000 != (b + shift) % 0x1_0000_0000_0000_0000,
{
}

/// With the watch on the clock, timestamp fields do not go down from one
/// snowflake to the next, provided that the caller waited as long as
/// `rollback_delay` asked and the clock did not fall back meanwhile.
///
/// `sampled` is what the clock read when the caller asked for the delay,
/// `current_time` what it read when the second snowflake was generated. The
/// times are below 2^64 - 1, so that the field can hold them. Where both
/// snowflakes are of the same millisecond, the first must not have added to
/// its timestamp field what the second does not add.
pub proof fn lemma_timestamps_do_not_decrease(
    state: GeneratorState,
    first_time: u128,
    first_model_type: u8,
    sampled: u128,
    current_time: u128,
    model_type: u8,
    api_version: u8,
    node_id: u16,
)
    requires
        state.last_time_created is Some,
        current_time < 0xFFFF_FFFF_FFFF_FFFF,
        match state.next(first_time).rollback_delay(sampled) {
            Some(millis) => sampled + millis <= current_time,
            None => sampled <= current_time,
        },
        first_time == current_time ==> timestamp_carry(
            first_model_type as nat,
            state.sequence as nat,
        ) <= timestamp_carry(model_type as nat, state.next(first_time).sequence as nat),
    ensures
        first_time <= current_time,
        timestamp_field(state.snowflake(first_time, first_model_type, api_version, node_id))
            <= timestamp_field(
            state.next(first_time).snowflake(current_time, model_type, api_version, node_id),
        ),
{
    lemma_fields_of_snowflake(
        first_time,
        first_model_type,
        state.sequence,
        api_version,
        node_id,
    );
    lemma_fields_of_snowflake(
        current_time,
        model_type,
        state.next(first_time).sequence,
        api_version,
        node_id,
    );
}

} // verus!
