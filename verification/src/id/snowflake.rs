//! Snowflake identifiers: `[0][timestamp millis (41 bits)][machine id (10 bits)][sequence (12 bits)]`.

use vstd::prelude::*;

use super::UidGenerator;

verus! {

/// The generators' epoch, 2022/01/01, in seconds since 1970-01-01 UTC.
pub const SNOWFLAKE_EPOCH: i64 = 1640998800;

/// The generators' epoch in milliseconds: identifiers count milliseconds from it.
pub const SNOWFLAKE_EPOCH_MILLIS: i64 = 1640998800000;

/// Largest sequence number; the sequence wraps to zero after it.
pub const SEQUENCE_MASK: i64 = 0x0FFF;

/// The mask that keeps the low ten bits of a machine identifier.
pub const MACHINE_ID_MASK: i64 = 0x03FF;

/// The error returned by `next` on a Snowflake generator.
#[derive(Debug, PartialEq, Eq, Structural)]
pub enum SnowflakeError {
    ClockMovedBackwards,
}

/// The identifier built from a relative timestamp, a machine identifier and a sequence number.
pub open spec fn compose_id(rel_ts: i64, machine_id: i64, sequence: i64) -> i64 {
    ((rel_ts << 22u64) | (machine_id << 12u64)) | sequence
}

/// The ranges in which the three parts of an identifier fit their bit fields.
pub open spec fn fits_layout(rel_ts: i64, machine_id: i64, sequence: i64) -> bool {
    &&& 0 <= rel_ts < 0x200_0000_0000
    &&& 0 <= machine_id < 0x400
    &&& 0 <= sequence < 0x1000
}

/// Layout law: within the field ranges, an identifier is non-negative, equals
/// `rel_ts * 2^22 + machine_id * 2^12 + sequence`, and each field can be read back from it.
pub proof fn lemma_id_layout(rel_ts: i64, machine_id: i64, sequence: i64)
    requires
        fits_layout(rel_ts, machine_id, sequence),
    ensures
        compose_id(rel_ts, machine_id, sequence) >= 0,
        compose_id(rel_ts, machine_id, sequence) == rel_ts * 0x40_0000 + machine_id * 0x1000 + sequence,
        compose_id(rel_ts, machine_id, sequence) >> 22u64 == rel_ts,
        (compose_id(rel_ts, machine_id, sequence) >> 12u64) & 0x3FF == machine_id,
        compose_id(rel_ts, machine_id, sequence) & 0xFFF == sequence,
{
    let id = compose_id(rel_ts, machine_id, sequence);
    assert(id >= 0 && id == rel_ts * 0x40_0000 + machine_id * 0x1000 + sequence && id >> 22u64 == rel_ts
        && (id >> 12u64) & 0x3FF == machine_id && id & 0xFFF == sequence) by (bit_vector)
        requires
            id == ((rel_ts << 22u64) | (machine_id << 12u64)) | sequence,
            0 <= rel_ts < 0x200_0000_0000,
            0 <= machine_id < 0x400,
            0 <= sequence < 0x1000,
    ;
}

/// Monotonicity law: when `next` issues an identifier, it is greater than the one the
/// generator held before.
pub proof fn lemma_issued_ids_increase(before: SnowflakeView, after: SnowflakeView)
    requires
        before.in_layout(),
        after.in_layout(),
        before.issued(after),
    ensures
        before.id() < after.id(),
{
    lemma_id_layout((before.last_ts - before.ts_epoch) as i64, before.machine_id as i64, before.sequence as i64);
    lemma_id_layout((after.last_ts - after.ts_epoch) as i64, after.machine_id as i64, after.sequence as i64);
    if before.sequence < SEQUENCE_MASK {
    } else {
        let a = (after.last_ts - after.ts_epoch);
        let b = (before.last_ts - before.ts_epoch);
        assert(a >= b + 1);
        assert(a * 0x40_0000 >= b * 0x40_0000 + 0x40_0000) by (nonlinear_arith)
            requires a >= b + 1;
    }
}

/// Law of consecutive identifiers: of two identifiers that a generator issues one right after
/// the other, the second has the same timestamp and the next sequence number, or, when the
/// first used up the sequence, a later timestamp and sequence one.
pub proof fn lemma_consecutive_ids(before: SnowflakeView, after: SnowflakeView)
    requires
        before.in_layout(),
        after.in_layout(),
        before.issued(after),
    ensures
        ({
            let a = before.id64();
            let b = after.id64();
            ||| (b >> 22u64 == a >> 22u64 && b & 0xFFF == (a & 0xFFF) + 1)
            ||| (a & 0xFFF == 4095 && b & 0xFFF == 1 && b >> 22u64 > a >> 22u64)
        }),
{
    lemma_id_layout((before.last_ts - before.ts_epoch) as i64, before.machine_id as i64, before.sequence as i64);
    lemma_id_layout((after.last_ts - after.ts_epoch) as i64, after.machine_id as i64, after.sequence as i64);
}

/// Identifiers never go down along a run of calls, failed ones included.
proof fn lemma_ids_nondecreasing(states: Seq<SnowflakeView>, k: int, l: int)
    requires
        0 <= k <= l < states.len(),
        forall|m: int| 0 <= m < states.len() ==> (#[trigger] states[m]).in_layout(),
        forall|m: int| 0 <= m < states.len() - 1 ==> (#[trigger] states[m]).stepped(states[m + 1]),
    ensures
        states[k].id() <= states[l].id(),
    decreases l - k,
{
    if k < l {
        lemma_ids_nondecreasing(states, k, l - 1);
        assert(states[l - 1].stepped(states[l]));
        if states[l - 1].issued(states[l]) {
            lemma_issued_ids_increase(states[l - 1], states[l]);
        }
    }
}

/// No-repeat law: along a run of calls of one generator, in which each call either issued an
/// identifier or failed, an identifier issued later is greater than one issued earlier, so no
/// identifier repeats, also after a failed call.
pub proof fn lemma_ids_never_repeat(states: Seq<SnowflakeView>, i: int, j: int)
    requires
        0 < i < j < states.len(),
        forall|m: int| 0 <= m < states.len() ==> (#[trigger] states[m]).in_layout(),
        forall|m: int| 0 <= m < states.len() - 1 ==> (#[trigger] states[m]).stepped(states[m + 1]),
        states[i - 1].issued(states[i]),
        states[j - 1].issued(states[j]),
    ensures
        states[i].id() < states[j].id(),
{
    lemma_ids_nondecreasing(states, i, j - 1);
    lemma_issued_ids_increase(states[j - 1], states[j]);
}

/// Clock law: what `curr_time` returns is the clock itself, with nothing added: for the
/// reading it took, the milliseconds elapsed since 1970-01-01 when they fit in an `i64`,
/// `i64::MAX` when they do not, and zero when the clock stood before 1970.
pub proof fn lemma_curr_time_is_the_clock(r: i64)
    requires
        call_ensures(Snowflake::curr_time, (), r),
    ensures
        exists|elapsed_millis: Option<u128>|
            #[trigger] Snowflake::clock_gave(elapsed_millis) && match elapsed_millis {
                Some(ms) => if ms <= i64::MAX {
                    r as int == ms as int
                } else {
                    r == i64::MAX
                },
                None => r == 0,
            },
{
}

/// Wrap law: when the sequence is exhausted, `next` takes a clock reading. A successful call
/// takes that very reading as its timestamp, later than the last one, with sequence one; a
/// failed call saw a reading no later than the last timestamp and changed nothing.
pub proof fn lemma_wrap_takes_the_clock_reading(
    before: SnowflakeView,
    after: SnowflakeView,
    r: Result<i64, SnowflakeError>,
)
    requires
        before.sequence == SEQUENCE_MASK,
        exists|reading: i64|
            #[trigger] call_ensures(Snowflake::curr_time, (), reading) && before.advanced_by(
                reading as int,
                after,
                r,
            ),
    ensures
        r is Ok ==> {
            &&& call_ensures(Snowflake::curr_time, (), after.last_ts as i64)
            &&& after.last_ts > before.last_ts
            &&& after.sequence == 1
            &&& after.machine_id == before.machine_id
        },
        r is Err ==> {
            &&& after == before
            &&& exists|reading: i64|
                #[trigger] call_ensures(Snowflake::curr_time, (), reading) && reading <= before.last_ts
        },
{
    let reading = choose|reading: i64|
        #[trigger] call_ensures(Snowflake::curr_time, (), reading) && before.advanced_by(
            reading as int,
            after,
            r,
        );
    assert(call_ensures(Snowflake::curr_time, (), reading));
}

/// The abstract state of a generator.
pub struct SnowflakeView {
    pub ts_epoch: int,
    pub machine_id: int,
    pub sequence: int,
    pub last_ts: int,
}

impl SnowflakeView {
    /// The identifier that the state describes.
    pub open spec fn id(self) -> int {
        compose_id((self.last_ts - self.ts_epoch) as i64, self.machine_id as i64, self.sequence as i64) as int
    }

    /// The identifier that the state describes, as an `i64`.
    pub open spec fn id64(self) -> i64 {
        compose_id((self.last_ts - self.ts_epoch) as i64, self.machine_id as i64, self.sequence as i64)
    }

    /// `next` moved from `self` to `after`, issuing an identifier or failing.
    pub open spec fn stepped(self, after: SnowflakeView) -> bool {
        self.issued(after) || self.failed(after)
    }

    /// The state's parts fit the identifier layout.
    pub open spec fn in_layout(self) -> bool {
        &&& 0 <= self.last_ts - self.ts_epoch < 0x200_0000_0000
        &&& 0 <= self.machine_id < 0x400
        &&& 0 <= self.sequence < 0x1000
    }

    /// `next` moved from `self` to `after` and issued an identifier: either the sequence
    /// advanced within the same millisecond, or a new timestamp was taken with sequence one.
    pub open spec fn issued(self, after: SnowflakeView) -> bool {
        &&& after.ts_epoch == self.ts_epoch
        &&& after.machine_id == self.machine_id
        &&& if self.sequence < SEQUENCE_MASK {
            after.last_ts == self.last_ts && after.sequence == self.sequence + 1
        } else {
            after.last_ts > self.last_ts && after.sequence == 1
        }
    }

    /// Taking the clock reading `reading` once the sequence is exhausted moved `self` to `after`
    /// with result `r`: a later reading becomes the timestamp, with sequence one, and gives its
    /// identifier; any other reading gives `ClockMovedBackwards` and changes nothing.
    pub open spec fn advanced_by(
        self,
        reading: int,
        after: SnowflakeView,
        r: Result<i64, SnowflakeError>,
    ) -> bool {
        if reading > self.last_ts {
            &&& after == SnowflakeView { last_ts: reading, sequence: 1, ..self }
            &&& r == Ok::<i64, SnowflakeError>(after.id() as i64)
        } else {
            &&& r == Err::<i64, SnowflakeError>(SnowflakeError::ClockMovedBackwards)
            &&& after == self
        }
    }

    /// `next` failed from `self`: the sequence was exhausted and no later timestamp was read;
    /// the state is left as it was, so the next call waits for a later timestamp again.
    pub open spec fn failed(self, after: SnowflakeView) -> bool {
        &&& self.sequence == SEQUENCE_MASK
        &&& after == self
    }
}

/// Twitter Snowflake inspired id generator. The generator cycles the timestamp only after it
/// has exhausted the sequence bits.
#[derive(Debug)]
pub struct Snowflake {
    ts_epoch: i64,
    machine_id: i64,
    sequence: i64,
    timestamp_millis: i64,
}

#[verifier::external_type_specification]
#[verifier::external_body]
pub struct ExSystemTimeError(std::time::SystemTimeError);

/// `std::time::SystemTime::elapsed` on `UNIX_EPOCH`: the time since 1970-01-01, or an error
/// when the system clock stands before it. The result depends on the clock, so nothing is
/// stated of it.
#[verifier::external_body]
fn elapsed_since_unix_epoch() -> (r: Result<std::time::Duration, std::time::SystemTimeError>) {
    std::time::UNIX_EPOCH.elapsed()
}

/// `std::time::Duration::as_millis`: the whole milliseconds of a duration. Duration has no
/// view here, so the result is left unstated.
#[verifier::external_body]
fn duration_as_millis(d: &std::time::Duration) -> (r: u128) {
    d.as_millis()
}

impl Snowflake {
    #[verifier::type_invariant]
    spec fn well_formed(self) -> bool {
        &&& self.ts_epoch == SNOWFLAKE_EPOCH_MILLIS
        &&& 0 <= self.machine_id <= MACHINE_ID_MASK
        &&& 0 <= self.sequence <= SEQUENCE_MASK
        &&& 0 <= self.timestamp_millis
    }

    /// The generator's state.
    pub closed spec fn view(&self) -> SnowflakeView {
        SnowflakeView {
            ts_epoch: self.ts_epoch as int,
            machine_id: self.machine_id as int,
            sequence: self.sequence as int,
            last_ts: self.timestamp_millis as int,
        }
    }

    /// Constructs a new instance of Snowflake id generator.
    pub fn new(machine_id: i64) -> (s: Self)
        ensures
            s.view().ts_epoch == SNOWFLAKE_EPOCH * 1000,
            s.view().machine_id == (machine_id & MACHINE_ID_MASK),
            s.view().sequence == 0,
            s.view().last_ts >= 0,
    {
        let masked = machine_id & MACHINE_ID_MASK;
        assert(0 <= masked <= 0x3FF) by (bit_vector)
            requires masked == machine_id & 0x3FFi64;
        let now = Self::curr_time();
        Self { ts_epoch: SNOWFLAKE_EPOCH_MILLIS, machine_id: masked, sequence: 0, timestamp_millis: now }
    }

    /// The step taken once the sequence is exhausted, given the clock reading waited for: a
    /// reading later than the last timestamp becomes the new timestamp, with sequence one, and
    /// gives the identifier for it; any other reading gives `ClockMovedBackwards` and leaves
    /// the generator as it was.
    pub fn advance(&mut self, reading: i64) -> (r: Result<i64, SnowflakeError>)
        ensures
            old(self).view().advanced_by(reading as int, final(self).view(), r),
    {
        proof {
            use_type_invariant(&*self);
        }
        if reading <= self.timestamp_millis {
            return Err(SnowflakeError::ClockMovedBackwards);
        }
        self.sequence = 1;
        self.timestamp_millis = reading;
        let rel = self.timestamp_millis - self.ts_epoch;
        let id = ((rel << 22u64) | (self.machine_id << 12u64)) | self.sequence;
        Ok(id)
    }

    /// The clock reading in milliseconds, given the whole milliseconds elapsed since
    /// 1970-01-01 (`None` when the clock stands before it): the elapsed milliseconds when they
    /// fit in an `i64`, `i64::MAX` when they do not, and zero for a clock before 1970.
    pub fn clock_millis(elapsed_millis: Option<u128>) -> (r: i64)
        ensures
            r == Self::clock_millis_spec(elapsed_millis),
    {
        match elapsed_millis {
            Some(ms) => {
                if ms > 0x7FFF_FFFF_FFFF_FFFFu128 {
                    0x7FFF_FFFF_FFFF_FFFFi64
                } else {
                    ms as i64
                }
            },
            None => 0,
        }
    }

    /// The current time in milliseconds since 1970-01-01, read from the system clock
    /// (see `clock_millis`).
    pub fn curr_time() -> (r: i64)
        ensures
            r >= 0,
            Self::is_clock_reading(r),
    {
        let read = elapsed_since_unix_epoch;
        let millis = duration_as_millis;
        let reading = read();
        match reading {
            Ok(d) => {
                let ms = millis(&d);
                let r = Self::clock_millis(Some(ms));
                assert(Self::clock_gave(Some(ms)));
                assert(Self::is_clock_reading(r));
                r
            },
            Err(e) => {
                let r = Self::clock_millis(None);
                assert(call_ensures(
                    elapsed_since_unix_epoch,
                    (),
                    Err::<std::time::Duration, std::time::SystemTimeError>(e),
                ));
                assert(Self::clock_gave(None));
                assert(Self::is_clock_reading(r));
                r
            },
        }
    }

    /// `elapsed_millis` is what one reading of the system clock gave: the whole milliseconds
    /// elapsed since 1970-01-01, or `None` when the clock stood before 1970.
    pub closed spec fn clock_gave(elapsed_millis: Option<u128>) -> bool {
        match elapsed_millis {
            Some(ms) => exists|d: std::time::Duration|
                #[trigger] call_ensures(duration_as_millis, (&d,), ms) && call_ensures(
                    elapsed_since_unix_epoch,
                    (),
                    Ok::<std::time::Duration, std::time::SystemTimeError>(d),
                ),
            None => exists|e: std::time::SystemTimeError|
                #[trigger] call_ensures(
                    elapsed_since_unix_epoch,
                    (),
                    Err::<std::time::Duration, std::time::SystemTimeError>(e),
                ),
        }
    }

    /// `r` is what `clock_millis` gives for some reading of the system clock.
    pub open spec fn is_clock_reading(r: i64) -> bool {
        exists|elapsed_millis: Option<u128>|
            #[trigger] Self::clock_gave(elapsed_millis) && r == Self::clock_millis_spec(elapsed_millis)
    }

    /// What `clock_millis` gives for a reading.
    pub open spec fn clock_millis_spec(elapsed_millis: Option<u128>) -> i64 {
        match elapsed_millis {
            Some(ms) => if ms <= i64::MAX {
                ms as i64
            } else {
                i64::MAX
            },
            None => 0,
        }
    }
}

impl Clone for Snowflake {
    fn clone(&self) -> (r: Self)
        ensures
            r.view() == self.view(),
    {
        proof {
            use_type_invariant(self);
        }
        Snowflake {
            ts_epoch: self.ts_epoch,
            machine_id: self.machine_id,
            sequence: self.sequence,
            timestamp_millis: self.timestamp_millis,
        }
    }
}

impl UidGenerator for Snowflake {
    type Item = i64;

    type Error = SnowflakeError;

    /// Generates and returns the next id. While the sequence lasts, the call always succeeds.
    /// When it is exhausted, the generator reads the clock until it shows a millisecond other
    /// than the last one (at most `u64::MAX` further readings) and hands that reading to
    /// `advance`: a later reading is taken with sequence one, any other gives
    /// `ClockMovedBackwards` and leaves the state as it was.
    fn next(&mut self) -> (r: Result<i64, SnowflakeError>)
        ensures
            match r {
                Ok(id) => {
                    &&& old(self).view().issued(final(self).view())
                    &&& id == compose_id(
                        (final(self).view().last_ts - final(self).view().ts_epoch) as i64,
                        final(self).view().machine_id as i64,
                        final(self).view().sequence as i64,
                    )
                },
                Err(e) => {
                    &&& e == SnowflakeError::ClockMovedBackwards
                    &&& old(self).view().failed(final(self).view())
                },
            },
            old(self).view().sequence < SEQUENCE_MASK ==> r is Ok,
            old(self).view().sequence == SEQUENCE_MASK ==> exists|reading: int|
                reading >= 0 && old(self).view().advanced_by(reading, final(self).view(), r),
            old(self).view().sequence == SEQUENCE_MASK ==> exists|reading: i64|
                #[trigger] call_ensures(Snowflake::curr_time, (), reading) && old(
                    self,
                ).view().advanced_by(reading as int, final(self).view(), r),
    {
        proof {
            use_type_invariant(&*self);
        }
        let seq_plus = self.sequence + 1;
        let next_seq = seq_plus & SEQUENCE_MASK;
        assert(next_seq == if seq_plus < 0x1000 { seq_plus } else { 0 }) by (bit_vector)
            requires
                next_seq == seq_plus & 0xFFFi64,
                1 <= seq_plus <= 0x1000,
        ;
        if next_seq == 0 {
            let last_ts = self.timestamp_millis;
            let clock = Snowflake::curr_time;
            let mut curr_ts = clock();
            let mut budget: u64 = 0xFFFF_FFFF_FFFF_FFFF;
            while curr_ts == last_ts && budget > 0
                invariant
                    call_ensures(Snowflake::curr_time, (), curr_ts),
                decreases budget,
            {
                curr_ts = clock();
                budget = budget - 1;
            }
            let r = self.advance(curr_ts);
            return r;
        } else {
            self.sequence = next_seq;
        }
        let rel = self.timestamp_millis - self.ts_epoch;
        let id = ((rel << 22u64) | (self.machine_id << 12u64)) | self.sequence;
        Ok(id)
    }
}

} // verus!
