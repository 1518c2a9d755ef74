use crate::clock::get_millis;
use crate::decimal::{decimal, push_decimal};
use crate::id::{
    lemma_pack_value, lemma_unpack, Fields, Flake, DATACENTER_MAX, MACHINE_MAX, SEQUENCE_MAX,
};
use std::time::SystemTime;
use vstd::prelude::*;
use vstd::string::*;

verus! {

/// Why a generator could not be made.
#[derive(Debug)]
pub enum IdError {
    /// If a datacenter id does not fit within 5 bits.
    InvalidDatacenterId(i32),
    /// If a machine id does not fit within 5 bits.
    InvalidMachineId(i32),
}

impl Clone for IdError {
    fn clone(&self) -> (copy: Self)
        ensures
            copy == *self,
    {
        match self {
            IdError::InvalidDatacenterId(id) => IdError::InvalidDatacenterId(*id),
            IdError::InvalidMachineId(id) => IdError::InvalidMachineId(*id),
        }
    }
}

impl IdError {
    /// The error that a datacenter id and a machine id are refused with, if
    /// they are. An id is refused unless it is one of 0 to 31, the values that
    /// 5 bits hold; the datacenter id is looked at first.
    pub open spec fn refusal(datacenter_id: i32, machine_id: i32) -> Option<IdError> {
        if datacenter_id < 0 || datacenter_id >= 32 {
            Some(IdError::InvalidDatacenterId(datacenter_id))
        } else if machine_id < 0 || machine_id >= 32 {
            Some(IdError::InvalidMachineId(machine_id))
        } else {
            None
        }
    }

    /// The message of an error: which id was refused, and the value given.
    pub open spec fn message_text(self) -> Seq<char> {
        match self {
            IdError::InvalidDatacenterId(id) => "datacenter id must fit within 5 bits, got "@
                + decimal(id as int),
            IdError::InvalidMachineId(id) => "machine id must fit within 5 bits, got "@ + decimal(
                id as int,
            ),
        }
    }

    /// Describes the error for a reader.
    pub fn message(&self) -> (text: String)
        ensures
            text@ == self.message_text(),
    {
        match self {
            IdError::InvalidDatacenterId(id) => {
                let mut text = String::from_str("datacenter id must fit within 5 bits, got ");
                push_decimal(&mut text, *id);
                text
            },
            IdError::InvalidMachineId(id) => {
                let mut text = String::from_str("machine id must fit within 5 bits, got ");
                push_decimal(&mut text, *id);
                text
            },
        }
    }
}

/// What a generator holds: its view in contracts and proofs.
pub struct GeneratorState {
    /// Start of the custom epoch.
    pub epoch: SystemTime,
    /// The millisecond that the next flake is issued under, unless the clock
    /// has moved past it by then.
    pub latest_millis: u64,
    /// Datacenter ID.
    pub datacenter_id: i32,
    /// Machine ID.
    pub machine_id: i32,
    /// Sequence number of the next flake inside `latest_millis`.
    pub sequence: i32,
}

impl GeneratorState {
    /// The ids fit within 5 bits each and the sequence number within 12 bits.
    pub open spec fn wf(self) -> bool {
        &&& 0 <= self.datacenter_id < 32
        &&& 0 <= self.machine_id < 32
        &&& 0 <= self.sequence < 4096
    }

    /// The millisecond that a flake is issued under when the clock reads
    /// `now`: the later of `now` and `latest_millis`, so that a clock that
    /// stands still or runs backwards does not take the generator back.
    pub open spec fn issue_millis(self, now: u64) -> u64 {
        if now > self.latest_millis {
            now
        } else {
            self.latest_millis
        }
    }

    /// The sequence number that a flake is issued with when the clock reads
    /// `now`: 0 in a new millisecond, else the next one that is free.
    pub open spec fn issue_sequence(self, now: u64) -> i32 {
        if now > self.latest_millis {
            0
        } else {
            self.sequence
        }
    }

    /// The flake that is issued when the clock reads `now`.
    pub open spec fn issued(self, now: u64) -> Flake {
        Flake(
            Flake::pack(
                self.issue_millis(now),
                self.datacenter_id,
                self.machine_id,
                self.issue_sequence(now),
            ),
        )
    }

    /// The millisecond that a flake is issued under when the clock reads
    /// `now` fits within the 42 bits of a timestamp, so that the flake holds
    /// it whole.
    pub open spec fn fits_at(self, now: u64) -> bool {
        self.issue_millis(now) < 0x400_0000_0000
    }

    /// The state after a flake was issued when the clock read `now`. Once the
    /// 4096 sequence numbers of a millisecond are used, the generator moves on
    /// to the next millisecond, ahead of the clock. The count of milliseconds
    /// wraps at 2^64, as the timestamp of a flake does at 2^42.
    pub open spec fn after(self, now: u64) -> GeneratorState {
        let millis: u64 = self.issue_millis(now);
        let sequence: i32 = self.issue_sequence(now);
        if sequence + 1 >= 4096 {
            GeneratorState {
                latest_millis: if millis == u64::MAX {
                    0
                } else {
                    (millis + 1) as u64
                },
                sequence: 0,
                ..self
            }
        } else {
            GeneratorState { latest_millis: millis, sequence: (sequence + 1) as i32, ..self }
        }
    }
}

/// Generator for snowflake IDs.
///
/// The timestamp of a flake counts milliseconds from a custom epoch, which is
/// supplied at startup. Keep the epoch once flakes have been issued: with a
/// later epoch the same flakes can be issued again.
///
/// A flake has room for 4096 sequence numbers, so at most 4096 flakes carry
/// the same millisecond. A generator that is asked for more takes the next
/// millisecond, ahead of the clock. This lets short bursts of more than 4096
/// flakes per millisecond through; under lasting load the timestamps run
/// further and further ahead of the clock.
///
/// A generator is for one owner at a time: it holds no lock.
pub struct IdGenerator {
    /// Start of a custom epoch.
    epoch: SystemTime,
    /// Latest millisecond timestamp encountered.
    latest_millis: u64,
    /// Datacenter ID.
    datacenter_id: i32,
    /// Machine ID.
    machine_id: i32,
    /// Sequence number of the generated ID inside a single millisecond.
    sequence: i32,
}

impl View for IdGenerator {
    type V = GeneratorState;

    closed spec fn view(&self) -> GeneratorState {
        GeneratorState {
            epoch: self.epoch,
            latest_millis: self.latest_millis,
            datacenter_id: self.datacenter_id,
            machine_id: self.machine_id,
            sequence: self.sequence,
        }
    }
}

impl IdGenerator {
    #[verifier::type_invariant]
    spec fn inv(&self) -> bool {
        self@.wf()
    }

    /// Creates a new `IdGenerator` with a custom epoch, datacenter id and
    /// machine id. The epoch should be the same for all instances, and no two
    /// instances should have the same datacenter id and machine id.
    ///
    /// Returns an error if `datacenter_id` or `machine_id` is not one of 0 to 31. The
    /// generator starts at the millisecond that the system clock reads, which
    /// no contract can name.
    pub fn new(epoch: SystemTime, datacenter_id: i32, machine_id: i32) -> (generator: Result<
        Self,
        IdError,
    >)
        ensures
            (match generator {
                Ok(g) => {
                    &&& IdError::refusal(datacenter_id, machine_id) is None
                    &&& g@.wf()
                    &&& g@.epoch == epoch
                    &&& g@.datacenter_id == datacenter_id
                    &&& g@.machine_id == machine_id
                    &&& g@.sequence == 0
                },
                Err(e) => IdError::refusal(datacenter_id, machine_id) == Some(e),
            }),
    {
        if datacenter_id < 0 || datacenter_id >= DATACENTER_MAX {
            return Err(IdError::InvalidDatacenterId(datacenter_id));
        }
        if machine_id < 0 || machine_id >= MACHINE_MAX {
            return Err(IdError::InvalidMachineId(machine_id));
        }
        Self::new_at(epoch, datacenter_id, machine_id, get_millis(epoch))
    }

    /// Creates a new `IdGenerator` as [`IdGenerator::new`] does when the clock
    /// reads `now` milliseconds since `epoch`.
    pub fn new_at(epoch: SystemTime, datacenter_id: i32, machine_id: i32, now: u64) -> (generator:
        Result<Self, IdError>)
        ensures
            (match generator {
                Ok(g) => {
                    &&& IdError::refusal(datacenter_id, machine_id) is None
                    &&& g@.wf()
                    &&& g@ == (GeneratorState {
                        epoch,
                        latest_millis: now,
                        datacenter_id,
                        machine_id,
                        sequence: 0,
                    })
                },
                Err(e) => IdError::refusal(datacenter_id, machine_id) == Some(e),
            }),
    {
        if datacenter_id < 0 || datacenter_id >= DATACENTER_MAX {
            return Err(IdError::InvalidDatacenterId(datacenter_id));
        }
        if machine_id < 0 || machine_id >= MACHINE_MAX {
            return Err(IdError::InvalidMachineId(machine_id));
        }
        Ok(IdGenerator { epoch, latest_millis: now, datacenter_id, machine_id, sequence: 0 })
    }

    /// Creates a new `Flake` and returns it.
    ///
    /// The millisecond is read from the system clock, so the flake and the
    /// state that is left are those of [`IdGenerator::id_at`] for some reading.
    pub fn id(&mut self) -> (flake: Flake)
        ensures
            final(self)@.wf(),
            exists|now: u64|
                flake == old(self)@.issued(now) && final(self)@ == #[trigger] old(self)@.after(
                    now,
                ),
    {
        let now: u64 = get_millis(self.epoch);
        self.id_at(now)
    }

    /// Creates the `Flake` that is due when the clock reads `now` milliseconds
    /// since the epoch, and returns it.
    ///
    /// A reading later than the millisecond in use starts that millisecond at
    /// sequence number 0; any other reading leaves the millisecond as it is.
    /// The flake that took the last sequence number of its millisecond moves
    /// the generator on to the next millisecond.
    pub fn id_at(&mut self, now: u64) -> (flake: Flake)
        ensures
            final(self)@.wf(),
            final(self)@ == old(self)@.after(now),
            flake == old(self)@.issued(now),
            flake@ == (Fields {
                timestamp: (old(self)@.issue_millis(now) % 0x400_0000_0000) as nat,
                datacenter_id: old(self)@.datacenter_id as nat,
                machine_id: old(self)@.machine_id as nat,
                sequence: old(self)@.issue_sequence(now) as nat,
            }),
            old(self)@.fits_at(now) ==> flake@.timestamp == old(self)@.issue_millis(now),
    {
        proof {
            use_type_invariant(&*self);
            lemma_issued_fields(self@, now);
        }
        if now > self.latest_millis {
            self.latest_millis = now;
            self.sequence = 0;
        }
        let flake = Flake::new(
            self.latest_millis,
            self.datacenter_id,
            self.machine_id,
            self.sequence,
        );

        // Once the sequence numbers are used up, take IDs from the next millisecond.
        if self.sequence + 1 >= SEQUENCE_MAX {
            self.latest_millis = self.latest_millis.wrapping_add(1);
            self.sequence = 0;
        } else {
            self.sequence += 1;
        }

        flake
    }
}

/// Issuing a flake leaves the generator well formed, with the epoch and the
/// two ids that it was made with.
pub proof fn lemma_after_keeps(g: GeneratorState, now: u64)
    requires
        g.wf(),
    ensures
        g.after(now).wf(),
        g.after(now).epoch == g.epoch,
        g.after(now).datacenter_id == g.datacenter_id,
        g.after(now).machine_id == g.machine_id,
{
}

/// The millisecond of a generator never goes back, short of the end of the
/// 64 bits that count it: a flake is issued under the millisecond in use or a
/// later one, and leaves that millisecond or the next in use. A later
/// millisecond starts at sequence number 0.
pub proof fn lemma_millis_never_go_back(g: GeneratorState, now: u64)
    requires
        g.wf(),
        g.issue_millis(now) < u64::MAX,
    ensures
        g.latest_millis <= g.issue_millis(now) <= g.after(now).latest_millis <= g.issue_millis(now)
            + 1,
        g.issue_millis(now) > g.latest_millis ==> g.issue_sequence(now) == 0,
        g.after(now).latest_millis > g.issue_millis(now) ==> g.after(now).sequence == 0,
{
}

/// The flake that is issued holds the two ids of the generator, the sequence
/// number that it was issued with and the low 42 bits of the millisecond: the
/// whole millisecond where that fits.
pub proof fn lemma_issued_fields(g: GeneratorState, now: u64)
    requires
        g.wf(),
    ensures
        g.issued(now)@ == (Fields {
            timestamp: (g.issue_millis(now) % 0x400_0000_0000) as nat,
            datacenter_id: g.datacenter_id as nat,
            machine_id: g.machine_id as nat,
            sequence: g.issue_sequence(now) as nat,
        }),
        g.fits_at(now) ==> g.issued(now)@.timestamp == g.issue_millis(now),
        g.fits_at(now) ==> g.issued(now).0 == g.issue_millis(now) * 0x40_0000 + g.datacenter_id
            * 0x2_0000 + g.machine_id * 0x1000 + g.issue_sequence(now),
{
    lemma_unpack(g.issue_millis(now), g.datacenter_id, g.machine_id, g.issue_sequence(now));
    if g.fits_at(now) {
        lemma_pack_value(
            g.issue_millis(now),
            g.datacenter_id,
            g.machine_id,
            g.issue_sequence(now),
        );
    }
}

/// Each flake is greater than the one issued before it, whatever the clock
/// read at the two calls, as long as the milliseconds of both fit within 42
/// bits.
pub proof fn lemma_strictly_increasing(g: GeneratorState, first: u64, second: u64)
    requires
        g.wf(),
        g.fits_at(first),
        g.after(first).fits_at(second),
    ensures
        g.issued(first).0 < g.after(first).issued(second).0,
{
    lemma_issued_fields(g, first);
    lemma_issued_fields(g.after(first), second);
}

/// Where the clock has moved past the millisecond of the flake issued last,
/// the next flake is issued under the millisecond that the clock reads, with
/// sequence number 0.
pub proof fn lemma_sequence_resets(g: GeneratorState, first: u64, second: u64)
    requires
        g.wf(),
        second > g.issue_millis(first),
    ensures
        g.after(first).issue_millis(second) == second,
        g.after(first).issue_sequence(second) == 0,
        g.after(first).issued(second)@.sequence == 0,
        g.after(first).issued(second)@.timestamp == second % 0x400_0000_0000,
        second < 0x400_0000_0000 ==> g.after(first).issued(second)@.timestamp == second,
{
    lemma_issued_fields(g.after(first), second);
}

/// Where the clock has not moved past the millisecond of the flake issued
/// last, and that flake did not take the last sequence number of its
/// millisecond, the next flake is issued under the same millisecond with the
/// sequence number that follows: the two flakes differ in their sequence
/// field alone.
pub proof fn lemma_sequence_increments(g: GeneratorState, first: u64, second: u64)
    requires
        g.wf(),
        second <= g.issue_millis(first),
        g.issue_sequence(first) < 4095,
    ensures
        g.after(first).issue_millis(second) == g.issue_millis(first),
        g.after(first).issue_sequence(second) == g.issue_sequence(first) + 1,
        g.after(first).issued(second)@.sequence == g.issued(first)@.sequence + 1,
        g.after(first).issued(second)@.timestamp == g.issued(first)@.timestamp,
        g.after(first).issued(second)@.datacenter_id == g.issued(first)@.datacenter_id,
        g.after(first).issued(second)@.machine_id == g.issued(first)@.machine_id,
{
    lemma_issued_fields(g, first);
    lemma_issued_fields(g.after(first), second);
}

/// Where a flake took the last sequence number of its millisecond and the
/// clock has not moved past the millisecond that follows, the next flake is
/// issued under that following millisecond with sequence number 0.
pub proof fn lemma_sequence_rolls_over(g: GeneratorState, first: u64, second: u64)
    requires
        g.wf(),
        g.issue_sequence(first) == 4095,
        g.issue_millis(first) < u64::MAX,
        second <= g.issue_millis(first) + 1,
    ensures
        g.after(first).issue_millis(second) == g.issue_millis(first) + 1,
        g.after(first).issue_sequence(second) == 0,
        g.after(first).issued(second)@.sequence == 0,
        g.after(first).issued(second)@.timestamp == (g.issue_millis(first) + 1) % 0x400_0000_0000,
        g.issue_millis(first) + 1 < 0x400_0000_0000 ==> g.after(first).issued(second)@.timestamp
            == g.issue_millis(first) + 1,
{
    lemma_issued_fields(g.after(first), second);
}

} // verus!
