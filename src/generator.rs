//! The generator: a state machine from clock readings to identifiers.
use crate::clock::wall_clock_millis;
use crate::layout::{
    compose_id, fields_in_range, id_data_center, id_timestamp, id_worker, lemma_compose_ordered,
    lemma_fields_round_trip, pack_id, MAX_DATA_CENTER_ID, MAX_SEQUENCE, MAX_TIMESTAMP,
    MAX_WORKER_ID,
};
use vstd::prelude::*;

verus! {

/// Why a generator could not be made or could not issue an identifier.
#[derive(Clone, Copy, Debug, PartialEq, Eq, Structural)]
pub enum GeneratorError {
    /// The worker id exceeds 31.
    WorkerIdOutOfRange { worker_id: u8 },
    /// The data-center id exceeds 31.
    DataCenterIdOutOfRange { data_center_id: u8 },
    /// The clock gave no reading that the timestamp field can hold: it reads
    /// before the Unix epoch or before the generator's epoch offset, or too far
    /// after it.
    ClockOutOfRange,
    /// The clock reads earlier than the timestamp of the last identifier, by
    /// `by_millis` milliseconds.
    ClockMovedBackwards { by_millis: u128 },
}

/// What one request for an identifier produced.
#[derive(Clone, Copy, Debug, PartialEq, Eq, Structural)]
pub enum IdOutcome {
    /// A fresh identifier.
    Issued(u128),
    /// Every sequence number of the current millisecond is used: ask again once
    /// the clock reads a later millisecond. The generator is unchanged.
    SequenceExhausted,
}

/// The state of a generator, as numbers.
pub ghost struct GeneratorState {
    pub last_time_millis: int,
    pub worker_id: int,
    pub data_center_id: int,
    pub sequence: int,
    pub timestamp_offset: int,
}

impl GeneratorState {
    /// Ids within their widths, the last timestamp within the timestamp field.
    pub open spec fn wf(self) -> bool {
        &&& fields_in_range(self.last_time_millis, self.data_center_id, self.worker_id, self.sequence)
        &&& 0 <= self.timestamp_offset <= u128::MAX
    }

    /// The identifier made of the last timestamp and sequence number: every
    /// identifier issued so far is at most this one.
    pub open spec fn last_id(self) -> int {
        compose_id(self.last_time_millis, self.data_center_id, self.worker_id, self.sequence)
    }
}

/// The state right after construction at clock reading `now`.
pub open spec fn initial_state(worker_id: int, data_center_id: int, timestamp_offset: int, now: int) -> GeneratorState {
    GeneratorState {
        last_time_millis: now - timestamp_offset,
        worker_id,
        data_center_id,
        sequence: 0,
        timestamp_offset,
    }
}

/// What construction at clock reading `now` gives.
pub open spec fn create_outcome(worker_id: int, data_center_id: int, timestamp_offset: int, now: int) -> Result<GeneratorState, GeneratorError> {
    if worker_id > MAX_WORKER_ID {
        Err(GeneratorError::WorkerIdOutOfRange { worker_id: worker_id as u8 })
    } else if data_center_id > MAX_DATA_CENTER_ID {
        Err(GeneratorError::DataCenterIdOutOfRange { data_center_id: data_center_id as u8 })
    } else if now < timestamp_offset || now - timestamp_offset > MAX_TIMESTAMP {
        Err(GeneratorError::ClockOutOfRange)
    } else {
        Ok(initial_state(worker_id, data_center_id, timestamp_offset, now))
    }
}

/// One request for an identifier at clock reading `now` (milliseconds since the
/// Unix epoch): the next state and the outcome.
pub open spec fn step(s: GeneratorState, now: int) -> (GeneratorState, Result<IdOutcome, GeneratorError>) {
    let t = now - s.timestamp_offset;
    if t < 0 || t > MAX_TIMESTAMP {
        (s, Err(GeneratorError::ClockOutOfRange))
    } else if t < s.last_time_millis {
        (s, Err(GeneratorError::ClockMovedBackwards { by_millis: (s.last_time_millis - t) as u128 }))
    } else if t == s.last_time_millis && s.sequence == MAX_SEQUENCE {
        (s, Ok(IdOutcome::SequenceExhausted))
    } else {
        let sequence = if t == s.last_time_millis { s.sequence + 1 } else { 0 };
        let next = GeneratorState { last_time_millis: t, sequence, ..s };
        (next, Ok(IdOutcome::Issued(next.last_id() as u128)))
    }
}

/// The identifiers issued, in order, by requests at the clock readings `readings`,
/// one after another, starting from state `s`.
pub open spec fn issued_ids(s: GeneratorState, readings: Seq<u128>) -> Seq<int>
    decreases readings.len(),
{
    if readings.len() == 0 {
        Seq::empty()
    } else {
        let (next, outcome) = step(s, readings[0] as int);
        let rest = issued_ids(next, readings.drop_first());
        match outcome {
            Ok(IdOutcome::Issued(id)) => seq![id as int] + rest,
            _ => rest,
        }
    }
}

/// One request keeps the state well formed. Where it issues an identifier, that
/// identifier is the new state's `last_id`, and exceeds the old one; otherwise
/// the state is unchanged.
pub proof fn lemma_step_advances(s: GeneratorState, now: int)
    requires
        s.wf(),
    ensures
        step(s, now).0.wf(),
        step(s, now).0.worker_id == s.worker_id,
        step(s, now).0.data_center_id == s.data_center_id,
        step(s, now).0.timestamp_offset == s.timestamp_offset,
        match step(s, now).1 {
            Ok(IdOutcome::Issued(id)) => id as int == step(s, now).0.last_id() && s.last_id() < id as int,
            _ => step(s, now).0 == s,
        },
{
    let next = step(s, now).0;
    if let Ok(IdOutcome::Issued(_)) = step(s, now).1 {
        lemma_compose_ordered(s.last_time_millis, s.sequence, next.last_time_millis, next.sequence, s.data_center_id, s.worker_id);
    }
}

/// Every identifier issued from state `s` exceeds `s.last_id()`, and the
/// identifiers come out strictly increasing, whatever the clock readings.
pub proof fn lemma_ids_increasing(s: GeneratorState, readings: Seq<u128>)
    requires
        s.wf(),
    ensures
        forall|k: int| 0 <= k < issued_ids(s, readings).len() ==> s.last_id() < #[trigger] issued_ids(s, readings)[k],
        forall|i: int, j: int| 0 <= i < j < issued_ids(s, readings).len() ==> #[trigger] issued_ids(s, readings)[i] < #[trigger] issued_ids(s, readings)[j],
    decreases readings.len(),
{
    if readings.len() > 0 {
        let (next, outcome) = step(s, readings[0] as int);
        lemma_step_advances(s, readings[0] as int);
        lemma_ids_increasing(next, readings.drop_first());
        let rest = issued_ids(next, readings.drop_first());
        let ids = issued_ids(s, readings);
        if let Ok(IdOutcome::Issued(id)) = outcome {
            assert(ids == seq![id as int] + rest);
            assert forall|i: int, j: int| 0 <= i < j < ids.len() implies #[trigger] ids[i] < #[trigger] ids[j] by {
                if i > 0 {
                    assert(ids[i] == rest[i - 1]);
                }
                assert(ids[j] == rest[j - 1]);
            }
            assert forall|k: int| 0 <= k < ids.len() implies s.last_id() < #[trigger] ids[k] by {
                if k > 0 {
                    assert(ids[k] == rest[k - 1]);
                }
            }
        } else {
            assert(ids == rest);
        }
    }
}

/// The identifiers issued by any run of requests on one generator are pairwise
/// distinct.
pub proof fn lemma_ids_distinct(s: GeneratorState, readings: Seq<u128>)
    requires
        s.wf(),
    ensures
        forall|i: int, j: int| 0 <= i < issued_ids(s, readings).len() && 0 <= j < issued_ids(s, readings).len() && i != j ==> #[trigger] issued_ids(s, readings)[i] != #[trigger] issued_ids(s, readings)[j],
{
    lemma_ids_increasing(s, readings);
    let ids = issued_ids(s, readings);
    assert forall|i: int, j: int| 0 <= i < ids.len() && 0 <= j < ids.len() && i != j implies #[trigger] ids[i] != #[trigger] ids[j] by {
        if i < j {
            assert(ids[i] < ids[j]);
        } else {
            assert(ids[j] < ids[i]);
        }
    }
}

/// Decoding an issued identifier gives back the generator's data-center and
/// worker ids.
pub proof fn lemma_issued_id_fields(s: GeneratorState, now: int)
    requires
        s.wf(),
        step(s, now).1 matches Ok(IdOutcome::Issued(_)),
    ensures
        id_data_center(step(s, now).1->Ok_0->Issued_0 as int) == s.data_center_id,
        id_worker(step(s, now).1->Ok_0->Issued_0 as int) == s.worker_id,
{
    let next = step(s, now).0;
    lemma_fields_round_trip(next.last_time_millis, next.data_center_id, next.worker_id, next.sequence);
}

/// The timestamp field of an issued identifier is the clock reading less the
/// epoch offset.
pub proof fn lemma_issued_timestamp(s: GeneratorState, now: int)
    requires
        s.wf(),
        step(s, now).1 matches Ok(IdOutcome::Issued(_)),
    ensures
        id_timestamp(step(s, now).1->Ok_0->Issued_0 as int) == now - s.timestamp_offset,
{
    let next = step(s, now).0;
    lemma_fields_round_trip(next.last_time_millis, next.data_center_id, next.worker_id, next.sequence);
}

/// A Snowflake identifier generator for one (data center, worker) pair.
///
/// It is not synchronised: one stream of calls at a time advances it.
pub struct SnowflakeGenerator {
    /// Timestamp of the last identifier, in milliseconds after the epoch offset.
    last_time_millis: u128,
    /// Worker id, 0 to 31.
    worker_id: u8,
    /// Data-center id, 0 to 31.
    data_center_id: u8,
    /// Sequence number of the last identifier within its millisecond, 0 to 4095.
    sequence: u16,
    /// Milliseconds since the Unix epoch at which timestamps start.
    timestamp_offset: u128,
}

impl View for SnowflakeGenerator {
    type V = GeneratorState;

    closed spec fn view(&self) -> GeneratorState {
        GeneratorState {
            last_time_millis: self.last_time_millis as int,
            worker_id: self.worker_id as int,
            data_center_id: self.data_center_id as int,
            sequence: self.sequence as int,
            timestamp_offset: self.timestamp_offset as int,
        }
    }
}

impl SnowflakeGenerator {
    /// Makes a generator for the given ids, whose timestamps count milliseconds
    /// from `timestamp_offset` (milliseconds since the Unix epoch), with the clock
    /// reading `now_millis`.
    pub fn new_at(worker_id: u8, data_center_id: u8, timestamp_offset: u128, now_millis: u128) -> (r: Result<Self, GeneratorError>)
        ensures
            match r {
                Ok(g) => g@.wf() && create_outcome(worker_id as int, data_center_id as int, timestamp_offset as int, now_millis as int) == Ok::<GeneratorState, GeneratorError>(g@),
                Err(e) => create_outcome(worker_id as int, data_center_id as int, timestamp_offset as int, now_millis as int) == Err::<GeneratorState, GeneratorError>(e),
            },
    {
        if worker_id > MAX_WORKER_ID {
            return Err(GeneratorError::WorkerIdOutOfRange { worker_id });
        }
        if data_center_id > MAX_DATA_CENTER_ID {
            return Err(GeneratorError::DataCenterIdOutOfRange { data_center_id });
        }
        if now_millis < timestamp_offset || now_millis - timestamp_offset > MAX_TIMESTAMP {
            return Err(GeneratorError::ClockOutOfRange);
        }
        Ok(SnowflakeGenerator {
            last_time_millis: now_millis - timestamp_offset,
            worker_id,
            data_center_id,
            sequence: 0,
            timestamp_offset,
        })
    }

    /// Requests an identifier with the clock reading `now_millis` (milliseconds
    /// since the Unix epoch).
    pub fn next_id_at(&mut self, now_millis: u128) -> (r: Result<IdOutcome, GeneratorError>)
        requires
            old(self)@.wf(),
        ensures
            final(self)@.wf(),
            (final(self)@, r) == step(old(self)@, now_millis as int),
    {
        if now_millis < self.timestamp_offset || now_millis - self.timestamp_offset > MAX_TIMESTAMP {
            return Err(GeneratorError::ClockOutOfRange);
        }
        let now = now_millis - self.timestamp_offset;
        if now < self.last_time_millis {
            return Err(GeneratorError::ClockMovedBackwards { by_millis: self.last_time_millis - now });
        }
        if now == self.last_time_millis {
            if self.sequence == MAX_SEQUENCE {
                return Ok(IdOutcome::SequenceExhausted);
            }
            self.sequence = self.sequence + 1;
        } else {
            self.sequence = 0;
        }
        self.last_time_millis = now;
        let id = pack_id(self.last_time_millis, self.data_center_id, self.worker_id, self.sequence);
        Ok(IdOutcome::Issued(id))
    }

    /// Makes a generator for the given ids, whose timestamps count milliseconds
    /// from `timestamp_offset` (milliseconds since the Unix epoch), reading the
    /// system clock once.
    pub fn new(worker_id: u8, data_center_id: u8, timestamp_offset: u128) -> (r: Result<Self, GeneratorError>)
        ensures
            worker_id > MAX_WORKER_ID ==> r == Err::<Self, GeneratorError>(
                GeneratorError::WorkerIdOutOfRange { worker_id },
            ),
            worker_id <= MAX_WORKER_ID && data_center_id > MAX_DATA_CENTER_ID ==> r == Err::<Self, GeneratorError>(
                GeneratorError::DataCenterIdOutOfRange { data_center_id },
            ),
            worker_id <= MAX_WORKER_ID && data_center_id <= MAX_DATA_CENTER_ID ==> match r {
                Ok(g) => g@.wf() && exists|now: u128| g@ == #[trigger] initial_state(worker_id as int, data_center_id as int, timestamp_offset as int, now as int),
                Err(e) => e == GeneratorError::ClockOutOfRange,
            },
    {
        if worker_id > MAX_WORKER_ID {
            return Err(GeneratorError::WorkerIdOutOfRange { worker_id });
        }
        if data_center_id > MAX_DATA_CENTER_ID {
            return Err(GeneratorError::DataCenterIdOutOfRange { data_center_id });
        }
        match wall_clock_millis() {
            Some(now_millis) => {
                let r = Self::new_at(worker_id, data_center_id, timestamp_offset, now_millis);
                assert(r is Ok ==> r->Ok_0@ == initial_state(worker_id as int, data_center_id as int, timestamp_offset as int, now_millis as int));
                r
            },
            None => Err(GeneratorError::ClockOutOfRange),
        }
    }

    /// Requests an identifier, reading the system clock once.
    ///
    /// Where every sequence number of the current millisecond is used, this
    /// returns `IdOutcome::SequenceExhausted` rather than waiting: the caller asks
    /// again once a later millisecond has come.
    pub fn next_id(&mut self) -> (r: Result<IdOutcome, GeneratorError>)
        requires
            old(self)@.wf(),
        ensures
            final(self)@.wf(),
            (r == Err::<IdOutcome, GeneratorError>(GeneratorError::ClockOutOfRange) && final(self)@ == old(self)@)
                || exists|now: u128| (final(self)@, r) == #[trigger] step(old(self)@, now as int),
    {
        match wall_clock_millis() {
            Some(now_millis) => self.next_id_at(now_millis),
            None => Err(GeneratorError::ClockOutOfRange),
        }
    }

    /// The worker id.
    pub fn worker_id(&self) -> (r: u8)
        ensures
            r as int == self@.worker_id,
    {
        self.worker_id
    }

    /// The data-center id.
    pub fn data_center_id(&self) -> (r: u8)
        ensures
            r as int == self@.data_center_id,
    {
        self.data_center_id
    }

    /// The epoch offset, in milliseconds since the Unix epoch.
    pub fn timestamp_offset(&self) -> (r: u128)
        ensures
            r as int == self@.timestamp_offset,
    {
        self.timestamp_offset
    }

    /// The timestamp of the last identifier (at first, of construction), in
    /// milliseconds after the epoch offset.
    pub fn last_time_millis(&self) -> (r: u128)
        ensures
            r as int == self@.last_time_millis,
    {
        self.last_time_millis
    }

    /// The sequence number of the last identifier within its millisecond.
    pub fn sequence(&self) -> (r: u16)
        ensures
            r as int == self@.sequence,
    {
        self.sequence
    }
}

} // verus!
