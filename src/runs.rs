use vstd::prelude::*;
use vstd::arithmetic::div_mod::{lemma_div_plus_one, lemma_basic_div};
use crate::sched::{next_in_turn, sched_step, saved_context, Kernel, SchedOutcome};

verus! {

/// The task that runs `n` ticks after `start`, when every tick switches.
pub open spec fn turn_after(start: int, n: nat, next_id: int) -> int
    decreases n,
{
    if n == 0 {
        start
    } else {
        next_in_turn(turn_after(start, (n - 1) as nat, next_id), next_id)
    }
}

/// How many of the ticks `1 ..= n` after `start` hand the CPU to task `t`.
pub open spec fn times_scheduled(start: int, n: nat, next_id: int, t: int) -> nat
    decreases n,
{
    if n == 0 {
        0
    } else {
        times_scheduled(start, (n - 1) as nat, next_id, t) + if turn_after(start, n, next_id) == t {
            1nat
        } else {
            0nat
        }
    }
}

proof fn lemma_turn_in_range(start: int, n: nat, next_id: int)
    requires
        1 <= start < next_id,
    ensures
        1 <= turn_after(start, n, next_id) < next_id,
    decreases n,
{
    if n > 0 {
        lemma_turn_in_range(start, (n - 1) as nat, next_id);
    }
}

proof fn lemma_turn_compose(start: int, a: nat, b: nat, next_id: int)
    ensures
        turn_after(start, a + b, next_id) == turn_after(turn_after(start, a, next_id), b, next_id),
    decreases b,
{
    if b > 0 {
        lemma_turn_compose(start, a, (b - 1) as nat, next_id);
        assert((a + b - 1) as nat == a + (b - 1) as nat);
    }
}

proof fn lemma_turn_counts_up(start: int, j: nat, next_id: int)
    requires
        1 <= start,
        start + j < next_id,
    ensures
        turn_after(start, j, next_id) == start + j,
    decreases j,
{
    if j > 0 {
        lemma_turn_counts_up(start, (j - 1) as nat, next_id);
    }
}

/// Every task `t` is reached from `start` within one round of `next_id - 1` ticks.
proof fn lemma_turn_reaches(start: int, t: int, next_id: int) -> (j: nat)
    requires
        1 <= start < next_id,
        1 <= t < next_id,
    ensures
        1 <= j <= next_id - 1,
        turn_after(start, j, next_id) == t,
{
    let k = next_id - 1;
    if t > start {
        lemma_turn_counts_up(start, (t - start) as nat, next_id);
        (t - start) as nat
    } else {
        let to_end = (k - start) as nat;
        lemma_turn_counts_up(start, to_end, next_id);
        assert(turn_after(start, to_end + 1, next_id) == 1);
        lemma_turn_counts_up(1, (t - 1) as nat, next_id);
        lemma_turn_compose(start, to_end + 1, (t - 1) as nat, next_id);
        (to_end + 1 + (t - 1)) as nat
    }
}

proof fn lemma_times_split(start: int, n: nat, m: nat, next_id: int, t: int)
    ensures
        times_scheduled(start, n + m, next_id, t) == times_scheduled(start, n, next_id, t)
            + times_scheduled(turn_after(start, n, next_id), m, next_id, t),
    decreases m,
{
    if m > 0 {
        lemma_times_split(start, n, (m - 1) as nat, next_id, t);
        lemma_turn_compose(start, n, m, next_id);
        assert((n + m - 1) as nat == n + (m - 1) as nat);
    }
}

proof fn lemma_round_schedules_each(start: int, next_id: int, t: int)
    requires
        1 <= start < next_id,
        1 <= t < next_id,
    ensures
        times_scheduled(start, (next_id - 1) as nat, next_id, t) >= 1,
{
    let j = lemma_turn_reaches(start, t, next_id);
    let k = (next_id - 1) as nat;
    lemma_times_split(start, j, (k - j) as nat, next_id, t);
    assert(j + (k - j) as nat == k);
}

/// Round-robin fairness: with the `K = next_id - 1` tasks `1 .. next_id` allocated and
/// every one of `n` ticks switching, each task runs at least `⌊n / K⌋` times, so at
/// least `⌊n / K⌋ − 1` times.
pub proof fn lemma_round_robin_fair(start: int, n: nat, next_id: int, t: int)
    requires
        1 <= start < next_id,
        1 <= t < next_id,
    ensures
        times_scheduled(start, n, next_id, t) >= n / ((next_id - 1) as nat),
        times_scheduled(start, n, next_id, t) >= n / ((next_id - 1) as nat) - 1,
    decreases n,
{
    let k = (next_id - 1) as nat;
    if n < k {
        lemma_basic_div(n as int, k as int);
    } else {
        let rest = (n - k) as nat;
        lemma_round_robin_fair(start, rest, next_id, t);
        lemma_times_split(start, rest, k, next_id, t);
        lemma_turn_in_range(start, rest, next_id);
        lemma_round_schedules_each(turn_after(start, rest, next_id), next_id, t);
        lemma_div_plus_one(rest as int, k as int);
        assert(rest + k == n);
    }
}

/// How many of the states `ks[1] ..= ks[n]` run task `t`.
pub open spec fn times_current(ks: Seq<Kernel>, n: nat, t: int) -> nat
    decreases n,
{
    if n == 0 {
        0
    } else {
        times_current(ks, (n - 1) as nat, t) + if ks[n as int].current_id == t {
            1nat
        } else {
            0nat
        }
    }
}

/// Whether `ks` is a run of scheduler steps with outcomes `rs`, each of which could take
/// the next task's lock, starting once multitasking has begun.
pub open spec fn switching_run(ks: Seq<Kernel>, rs: Seq<SchedOutcome>) -> bool {
    &&& ks.len() == rs.len() + 1
    &&& ks[0].wf()
    &&& ks[0].current_id != 0
    &&& forall|k: int| 0 <= k < rs.len() ==> sched_step(&ks[k], &ks[k + 1], true, #[trigger] rs[k])
}

/// Along a run of switching scheduler steps, the current task follows round-robin order.
pub proof fn lemma_sched_follows_turns(ks: Seq<Kernel>, rs: Seq<SchedOutcome>, n: nat)
    requires
        switching_run(ks, rs),
        n <= rs.len(),
    ensures
        ks[n as int].current_id == turn_after(ks[0].current_id as int, n, ks[0].tasks.next_id as int),
        ks[n as int].tasks.next_id == ks[0].tasks.next_id,
    decreases n,
{
    if n > 0 {
        lemma_sched_follows_turns(ks, rs, (n - 1) as nat);
        let k = n - 1;
        assert(sched_step(&ks[k], &ks[k + 1], true, rs[k]));
        lemma_turn_in_range(ks[0].current_id as int, (n - 1) as nat, ks[0].tasks.next_id as int);
    }
}

proof fn lemma_times_current_is_turns(ks: Seq<Kernel>, rs: Seq<SchedOutcome>, n: nat, t: int)
    requires
        switching_run(ks, rs),
        n <= rs.len(),
    ensures
        times_current(ks, n, t) == times_scheduled(ks[0].current_id as int, n, ks[0].tasks.next_id as int, t),
    decreases n,
{
    if n > 0 {
        lemma_times_current_is_turns(ks, rs, (n - 1) as nat, t);
        lemma_sched_follows_turns(ks, rs, n);
    }
}

/// Fairness of the timer-driven scheduler: over `N` switching ticks with `K` tasks
/// allocated, each task runs after at least `⌊N / K⌋ − 1` of them.
pub proof fn lemma_sched_fair(ks: Seq<Kernel>, rs: Seq<SchedOutcome>, t: int)
    requires
        switching_run(ks, rs),
        ks[0].tasks.has(t),
    ensures
        times_current(ks, rs.len(), t) >= rs.len() / ((ks[0].tasks.next_id - 1) as nat) - 1,
{
    lemma_times_current_is_turns(ks, rs, rs.len(), t);
    lemma_round_robin_fair(ks[0].current_id as int, rs.len(), ks[0].tasks.next_id as int, t);
}

proof fn lemma_away_keeps_context(ks: Seq<Kernel>, rs: Seq<SchedOutcome>, i: int, k: int)
    requires
        switching_run(ks, rs),
        0 <= i < k <= rs.len(),
        forall|m: int| i < m <= k ==> #[trigger] ks[m].current_id != ks[i].current_id,
    ensures
        ks[k].tasks.task(ks[i].current_id as int).ctx == saved_context(
            ks[i].tasks.task(ks[i].current_id as int).ctx,
            ks[i].cpu,
        ),
    decreases k - i,
{
    lemma_sched_follows_turns(ks, rs, i as nat);
    lemma_turn_in_range(ks[0].current_id as int, i as nat, ks[0].tasks.next_id as int);
    if k == i + 1 {
        assert(sched_step(&ks[i], &ks[i + 1], true, rs[i]));
    } else {
        lemma_away_keeps_context(ks, rs, i, k - 1);
        let p = k - 1;
        lemma_sched_follows_turns(ks, rs, p as nat);
        lemma_turn_in_range(ks[0].current_id as int, p as nat, ks[0].tasks.next_id as int);
        assert(sched_step(&ks[p], &ks[p + 1], true, rs[p]));
        assert(ks[p].current_id != ks[i].current_id);
    }
}

/// Context-switch round trip: when the task running in `ks[i]` is switched away at
/// step `i`, does not run in `ks[i + 1] ..= ks[j]`, and is switched back to at step `j`,
/// the CPU's callee-saved registers, stack pointer, frame pointer and flags in `ks[j + 1]`
/// are exactly those of `ks[i]`.
pub proof fn lemma_switch_round_trip(ks: Seq<Kernel>, rs: Seq<SchedOutcome>, i: int, j: int)
    requires
        switching_run(ks, rs),
        0 <= i < j < rs.len(),
        forall|m: int| i < m <= j ==> #[trigger] ks[m].current_id != ks[i].current_id,
        ks[j + 1].current_id == ks[i].current_id,
    ensures
        ks[j + 1].cpu == ks[i].cpu,
{
    lemma_away_keeps_context(ks, rs, i, j);
    lemma_sched_follows_turns(ks, rs, j as nat);
    lemma_turn_in_range(ks[0].current_id as int, j as nat, ks[0].tasks.next_id as int);
    assert(sched_step(&ks[j], &ks[j + 1], true, rs[j]));
}

} // verus!
