use crate::generator::{
    lemma_after_keeps, lemma_issued_fields, lemma_strictly_increasing, GeneratorState,
};
use crate::id::{Fields, Flake};
use vstd::prelude::*;

verus! {

impl GeneratorState {
    /// The state after one flake was issued at each reading of `clock`, in
    /// the order of the readings.
    pub open spec fn after_all(self, clock: Seq<u64>) -> GeneratorState
        decreases clock.len(),
    {
        if clock.len() == 0 {
            self
        } else {
            self.after_all(clock.drop_last()).after(clock.last())
        }
    }

    /// The state in which the flake of reading `n` is issued: the one after
    /// the `n` readings before it.
    pub open spec fn before_nth(self, clock: Seq<u64>, n: int) -> GeneratorState {
        self.after_all(clock.take(n))
    }

    /// The flake issued at reading `n` of `clock`, counted from 0.
    pub open spec fn issued_nth(self, clock: Seq<u64>, n: int) -> Flake {
        self.before_nth(clock, n).issued(clock[n])
    }

    /// The millisecond of the flake issued at reading `n` of `clock` fits
    /// within 42 bits.
    pub open spec fn fits_nth(self, clock: Seq<u64>, n: int) -> bool {
        self.before_nth(clock, n).fits_at(clock[n])
    }
}

/// The state before a reading, issuing at that reading, gives the state
/// before the next reading. The state before any reading is well formed.
pub proof fn lemma_before_nth(g: GeneratorState, clock: Seq<u64>, n: int)
    requires
        g.wf(),
        0 <= n <= clock.len(),
    ensures
        g.before_nth(clock, n).wf(),
        g.before_nth(clock, n).datacenter_id == g.datacenter_id,
        g.before_nth(clock, n).machine_id == g.machine_id,
        g.before_nth(clock, 0) == g,
        n < clock.len() ==> g.before_nth(clock, n + 1) == g.before_nth(clock, n).after(clock[n]),
    decreases n,
{
    assert(clock.take(0).len() == 0);
    if n > 0 {
        lemma_before_nth(g, clock, n - 1);
        lemma_after_keeps(g.before_nth(clock, n - 1), clock[n - 1]);
    }
    if n < clock.len() {
        assert(clock.take(n + 1).drop_last() =~= clock.take(n));
        assert(clock.take(n + 1).last() == clock[n]);
    }
}

/// Of the flakes that a generator issues, a later one is greater than an
/// earlier one, whatever the clock read at each call, as long as the
/// milliseconds of the flakes from the earlier to the later fit within 42
/// bits. So no two of them are equal.
pub proof fn lemma_run_strictly_increasing(g: GeneratorState, clock: Seq<u64>, i: int, j: int)
    requires
        g.wf(),
        0 <= i < j < clock.len(),
        forall|n: int| i <= n <= j ==> #[trigger] g.fits_nth(clock, n),
    ensures
        g.issued_nth(clock, i).0 < g.issued_nth(clock, j).0,
    decreases j - i,
{
    lemma_before_nth(g, clock, j - 1);
    assert(g.fits_nth(clock, j - 1));
    assert(g.fits_nth(clock, j));
    lemma_strictly_increasing(g.before_nth(clock, j - 1), clock[j - 1], clock[j]);
    if i < j - 1 {
        lemma_run_strictly_increasing(g, clock, i, j - 1);
    }
}

/// No two of the flakes that a generator issues are equal, whatever the clock
/// read at each call, as long as the milliseconds of the flakes from the
/// earlier to the later of the two fit within 42 bits.
pub proof fn lemma_run_distinct(g: GeneratorState, clock: Seq<u64>, i: int, j: int)
    requires
        g.wf(),
        0 <= i < clock.len(),
        0 <= j < clock.len(),
        i != j,
        forall|n: int| (i <= n <= j || j <= n <= i) ==> #[trigger] g.fits_nth(clock, n),
    ensures
        g.issued_nth(clock, i) != g.issued_nth(clock, j),
{
    if i < j {
        lemma_run_strictly_increasing(g, clock, i, j);
    } else {
        lemma_run_strictly_increasing(g, clock, j, i);
    }
}

/// While the clock does not move past the millisecond that a generator
/// started under, the generator counts on its own: after `n` flakes its
/// sequence number has gone up by `n`, starting again at 0 after 4095, and
/// its millisecond has gone up by one each time it did.
pub proof fn lemma_burst_state(g: GeneratorState, clock: Seq<u64>, n: int)
    requires
        g.wf(),
        0 <= n <= clock.len(),
        forall|k: int| 0 <= k < clock.len() ==> clock[k] <= g.latest_millis,
        g.latest_millis + (g.sequence + n) / 4096 <= u64::MAX,
    ensures
        g.before_nth(clock, n) == (GeneratorState {
            latest_millis: (g.latest_millis + (g.sequence + n) / 4096) as u64,
            sequence: ((g.sequence + n) % 4096) as i32,
            ..g
        }),
    decreases n,
{
    lemma_before_nth(g, clock, n);
    if n > 0 {
        lemma_burst_state(g, clock, n - 1);
        lemma_before_nth(g, clock, n - 1);
    }
}

/// While the clock does not move past the millisecond that a generator
/// started under, the sequence numbers of its flakes go up by one from flake
/// to flake and start again at 0 after 4095, and each time they do the
/// millisecond of the flakes goes up by one.
pub proof fn lemma_burst(g: GeneratorState, clock: Seq<u64>, n: int)
    requires
        g.wf(),
        0 <= n < clock.len(),
        forall|k: int| 0 <= k < clock.len() ==> clock[k] <= g.latest_millis,
        g.latest_millis + (g.sequence + n) / 4096 <= u64::MAX,
    ensures
        g.before_nth(clock, n).issue_millis(clock[n]) == g.latest_millis + (g.sequence + n) / 4096,
        g.before_nth(clock, n).issue_sequence(clock[n]) == (g.sequence + n) % 4096,
        g.issued_nth(clock, n)@ == (Fields {
            timestamp: ((g.latest_millis + (g.sequence + n) / 4096) % 0x400_0000_0000) as nat,
            datacenter_id: g.datacenter_id as nat,
            machine_id: g.machine_id as nat,
            sequence: ((g.sequence + n) % 4096) as nat,
        }),
        g.latest_millis + (g.sequence + n) / 4096 < 0x400_0000_0000 ==> g.issued_nth(
            clock,
            n,
        )@.timestamp == g.latest_millis + (g.sequence + n) / 4096,
{
    lemma_burst_state(g, clock, n);
    lemma_before_nth(g, clock, n);
    lemma_issued_fields(g.before_nth(clock, n), clock[n]);
}

} // verus!
