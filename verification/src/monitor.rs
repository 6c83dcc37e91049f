//! The exclusive monitor that all A64 emulators of a process share, and the
//! processor ids under which they use it.

use vstd::prelude::*;

verus! {

/// The number of processors that the shared monitor serves.
pub const SHARED_MONITOR_PROCS: u32 = 8;

/// The id of the emulator that is created after `created` others.
pub open spec fn processor_id(created: nat) -> nat {
    if created < SHARED_MONITOR_PROCS {
        created
    } else {
        (SHARED_MONITOR_PROCS - 1) as nat
    }
}

/// The counter after one more emulator; it starts over after its largest value.
pub open spec fn counter_after(next: u32) -> u32 {
    if next == u32::MAX {
        0
    } else {
        (next + 1) as u32
    }
}

/// Takes the next processor id from the counter of emulators created so far.
pub fn next_processor_id(next: &mut u32) -> (id: u32)
    ensures
        id == processor_id(*old(next) as nat),
        *old(next) < 8 ==> id == *old(next),
        *old(next) >= 8 ==> id == 7,
        *final(next) == counter_after(*old(next)),
        *final(next) == (*old(next) + 1) % 0x1_0000_0000,
{
    let taken: u32 = *next;
    *next = if taken == u32::MAX {
        0
    } else {
        taken + 1
    };
    if taken < SHARED_MONITOR_PROCS - 1 {
        taken
    } else {
        SHARED_MONITOR_PROCS - 1
    }
}

/// The counter after `n` emulators, from a fresh one.
pub open spec fn counter_after_n(n: nat) -> u32
    decreases n,
{
    if n == 0 {
        0
    } else {
        counter_after(counter_after_n((n - 1) as nat))
    }
}

/// The counter counts: after `n` emulators it holds `n`, modulo 2^32.
pub proof fn law_counter_counts(n: nat)
    ensures
        counter_after_n(n) == n % 0x1_0000_0000,
    decreases n,
{
    if n > 0 {
        law_counter_counts((n - 1) as nat);
    }
}

/// Every processor id is one that the shared monitor serves, however many emulators
/// there were before.
pub proof fn law_processor_id_is_served(n: nat)
    ensures
        processor_id(counter_after_n(n) as nat) < SHARED_MONITOR_PROCS,
{
}

/// Every processor id is one that the shared monitor serves; among the first eight
/// emulators no two have the same id; and each emulator after them, up to the 2^32nd,
/// has the last id.
pub proof fn law_processor_ids(m: nat, n: nat)
    requires
        m < n <= u32::MAX,
    ensures
        processor_id(counter_after_n(m) as nat) < SHARED_MONITOR_PROCS,
        processor_id(counter_after_n(n) as nat) < SHARED_MONITOR_PROCS,
        n < SHARED_MONITOR_PROCS ==> processor_id(counter_after_n(m) as nat) != processor_id(
            counter_after_n(n) as nat,
        ),
        n >= SHARED_MONITOR_PROCS ==> processor_id(counter_after_n(n) as nat)
            == SHARED_MONITOR_PROCS - 1,
{
    law_processor_id_is_served(m);
    law_processor_id_is_served(n);
    law_counter_counts(m);
    law_counter_counts(n);
}

/// What to do for the shared monitor, given the address in its cell.
#[derive(Clone, Copy, Debug, PartialEq, Eq, Structural)]
pub enum MonitorStep {
    /// Use this monitor.
    Use { monitor: usize },
    /// Have the engine create a monitor for this many processors, then exchange it
    /// into the cell if the cell is still null.
    Create { processors: u32 },
}

/// Starts the acquisition of the shared monitor from the address in its cell: one
/// that is there is used, and a null cell asks for a new one.
pub fn shared_exclusive_monitor(existing: usize) -> (step: MonitorStep)
    ensures
        step == first_step(existing),
        existing != 0 ==> step == (MonitorStep::Use { monitor: existing }),
        existing == 0 ==> step == (MonitorStep::Create { processors: 8 }),
{
    if existing != 0 {
        MonitorStep::Use { monitor: existing }
    } else {
        MonitorStep::Create { processors: SHARED_MONITOR_PROCS }
    }
}

/// The step that the address in the cell asks for.
pub open spec fn first_step(existing: usize) -> MonitorStep {
    if existing != 0 {
        MonitorStep::Use { monitor: existing }
    } else {
        MonitorStep::Create { processors: SHARED_MONITOR_PROCS }
    }
}

/// Ends the acquisition after a created monitor was exchanged against a null cell.
/// `exchange` is the outcome: `Ok` where the cell was null and now holds `created`,
/// `Err` with the address that another thread had put there first. That address is
/// then the one to use.
pub fn settle_monitor(created: usize, exchange: Result<usize, usize>) -> (monitor: usize)
    ensures
        monitor == settled(created, exchange),
        exchange is Ok ==> monitor == created,
        exchange matches Err(winner) ==> monitor == winner,
{
    match exchange {
        Ok(_) => created,
        Err(winner) => winner,
    }
}

/// The monitor in use after an exchange.
pub open spec fn settled(created: usize, exchange: Result<usize, usize>) -> usize {
    match exchange {
        Ok(_) => created,
        Err(winner) => winner,
    }
}

/// The outcome of an exchange against null where the cell holds `cell`.
pub open spec fn exchange_outcome(cell: usize) -> Result<usize, usize> {
    if cell == 0 {
        Ok(cell)
    } else {
        Err(cell)
    }
}

/// What the cell holds after `created` was exchanged against null.
pub open spec fn cell_after(cell: usize, created: usize) -> usize {
    if cell == 0 {
        created
    } else {
        cell
    }
}

/// What a null cell holds after these monitors, in this order, were exchanged
/// against null.
pub open spec fn cell_after_all(created: Seq<usize>) -> usize
    decreases created.len(),
{
    if created.len() == 0 {
        0
    } else {
        cell_after(cell_after_all(created.drop_last()), created.last())
    }
}

/// A thread that exchanges settles on what the cell then holds, whether it won or
/// lost.
pub proof fn law_settles_on_the_cell(cell: usize, created: usize)
    ensures
        settled(created, exchange_outcome(cell)) == cell_after(cell, created),
{
}

/// However many threads race, they share one monitor: once the cell is not null,
/// whatever is exchanged later leaves it as it is, and a thread that loads it uses
/// what it holds.
pub proof fn law_monitor_is_shared(created: Seq<usize>, n: int)
    requires
        0 <= n <= created.len(),
        cell_after_all(created.take(n)) != 0,
    ensures
        cell_after_all(created) == cell_after_all(created.take(n)),
        first_step(cell_after_all(created)) == (MonitorStep::Use {
            monitor: cell_after_all(created.take(n)),
        }),
    decreases created.len(),
{
    if n == created.len() {
        assert(created.take(n) =~= created);
    } else {
        assert(created.drop_last().take(n) =~= created.take(n));
        law_monitor_is_shared(created.drop_last(), n);
    }
}

/// The `n`th emulator, counted from 0, has the id `n` while there are ids left, and 7
/// from then on, up to the 2^32nd; after that the ids start over at 0.
pub proof fn law_ids_are_given_in_order(n: nat)
    ensures
        n < 8 ==> processor_id(counter_after_n(n) as nat) == n,
        8 <= n <= u32::MAX ==> processor_id(counter_after_n(n) as nat) == 7,
        processor_id(counter_after_n(n + 0x1_0000_0000) as nat) == processor_id(
            counter_after_n(n) as nat,
        ),
{
    law_counter_counts(n);
    law_counter_counts(n + 0x1_0000_0000);
}

/// A monitor that is there is used and none is made; only a null cell asks for one, for
/// eight processors.
pub proof fn law_monitor_is_made_once(existing: usize)
    ensures
        existing != 0 <==> first_step(existing) is Use,
        first_step(existing) matches MonitorStep::Use { monitor } ==> monitor == existing,
        first_step(existing) matches MonitorStep::Create { processors } ==> processors == 8,
{
}

/// The winner of a race uses the monitor it made; the loser uses the one that was in
/// the cell, and not its own.
pub proof fn law_loser_uses_the_winners_monitor(created: usize, found: usize)
    ensures
        settled(created, Ok(found)) == created,
        settled(created, Err(found)) == found,
{
}

} // verus!
