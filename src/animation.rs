use vstd::prelude::*;

use crate::motion::Command;

verus! {

/// One scripted entry: a command and a duration in microseconds.
pub type Entry = (Command, u64);

/// Sum of the durations of a sequence of entries.
pub open spec fn total(s: Seq<Entry>) -> int
    decreases s.len(),
{
    if s.len() == 0 {
        0
    } else {
        s[0].1 + total(s.drop_first())
    }
}

/// Every entry has time left.
pub open spec fn all_positive(s: Seq<Entry>) -> bool {
    forall|j: int| 0 <= j < s.len() ==> #[trigger] s[j].1 > 0
}

/// The entries with time left, in their order.
pub open spec fn purged(s: Seq<Entry>) -> Seq<Entry>
    decreases s.len(),
{
    if s.len() == 0 {
        s
    } else if s.last().1 > 0 {
        purged(s.drop_last()).push(s.last())
    } else {
        purged(s.drop_last())
    }
}

/// What one step of `budget` microseconds hands out from the queue `q`:
/// whole entries while the budget exceeds them, then the rest of the budget
/// to the entry at which it runs out.
pub open spec fn emitted(q: Seq<Entry>, budget: int) -> Seq<Entry>
    decreases q.len(),
{
    if q.len() == 0 {
        seq![]
    } else if budget <= q[0].1 {
        seq![(q[0].0, budget as u64)]
    } else {
        seq![q[0]] + emitted(q.drop_first(), budget - q[0].1)
    }
}

/// The queue after walking one step of `budget` microseconds over it:
/// entries that the budget covers drop to zero, the one at which it runs out
/// loses the rest of the budget, and later entries stay as they are.
pub open spec fn walked(q: Seq<Entry>, budget: int) -> Seq<Entry>
    decreases q.len(),
{
    if q.len() == 0 {
        seq![]
    } else if budget <= q[0].1 {
        seq![(q[0].0, (q[0].1 - budget) as u64)] + q.drop_first()
    } else {
        seq![(q[0].0, 0u64)] + walked(q.drop_first(), budget - q[0].1)
    }
}

/// The queue left after one step of `budget` microseconds: the walked queue
/// with every entry that has no time left removed.
pub open spec fn remaining(q: Seq<Entry>, budget: int) -> Seq<Entry> {
    purged(walked(q, budget))
}

/// Playback of an animation script: the queue of commands still to run.
#[derive(Debug)]
pub struct Animation {
    pub is_running: bool,
    pub command_pool: Vec<Entry>,
}

impl Animation {
    /// Playback runs exactly while entries are queued.
    pub open spec fn wf(&self) -> bool {
        self.is_running == (self.command_pool@.len() > 0)
    }

    /// A stopped player with an empty queue.
    pub fn new() -> (r: Animation)
        ensures
            r.wf(),
            !r.is_running,
            r.command_pool@.len() == 0,
    {
        Animation { is_running: false, command_pool: Vec::new() }
    }

    /// Starts playing `cmds` as given; playback runs when the script is not
    /// empty. Does nothing while a script is playing.
    pub fn start(&mut self, cmds: &Vec<Entry>)
        requires
            old(self).wf(),
        ensures
            final(self).wf(),
            old(self).is_running ==> *final(self) == *old(self),
            !old(self).is_running ==> final(self).command_pool@ == cmds@,
            !old(self).is_running ==> (final(self).is_running <==> cmds@.len() > 0),
    {
        if self.is_running {
            return;
        }
        self.command_pool = copy_entries(cmds);
        self.is_running = self.command_pool.len() > 0;
    }

    /// Hands out the next `delta_time` microseconds of the script: each
    /// command to run this frame with the time it is entitled to.
    pub fn step(&mut self, delta_time: u64) -> (r: Vec<Entry>)
        requires
            old(self).wf(),
        ensures
            final(self).wf(),
            r@ == emitted(old(self).command_pool@, delta_time as int),
            final(self).command_pool@ == remaining(old(self).command_pool@, delta_time as int),
    {
        let ghost q = self.command_pool@;
        let mut budget: u64 = delta_time;
        let mut out: Vec<Entry> = Vec::new();
        let mut walk: Vec<Entry> = Vec::new();
        let mut exhausted = false;
        let n = self.command_pool.len();
        let mut i: usize = 0;
        proof {
            assert(q.skip(0) =~= q);
        }
        while i < n
            invariant
                n == q.len(),
                q == self.command_pool@,
                i <= n,
                !exhausted ==> {
                    &&& emitted(q, delta_time as int) == out@ + emitted(q.skip(i as int), budget as int)
                    &&& walked(q, delta_time as int) == walk@ + walked(q.skip(i as int), budget as int)
                },
                exhausted ==> {
                    &&& emitted(q, delta_time as int) == out@
                    &&& walked(q, delta_time as int) == walk@ + q.skip(i as int)
                },
            decreases n - i,
        {
            let (c, t) = self.command_pool[i];
            let ghost tail = q.skip(i as int);
            let ghost out0 = out@;
            let ghost walk0 = walk@;
            proof {
                assert(tail[0] == (c, t));
                assert(tail.drop_first() =~= q.skip(i + 1));
            }
            if exhausted {
                walk.push((c, t));
                proof {
                    assert(walk0 + q.skip(i as int) =~= walk@ + q.skip(i + 1));
                }
            } else if budget <= t {
                out.push((c, budget));
                walk.push((c, t - budget));
                exhausted = true;
                proof {
                    assert(walk0 + walked(tail, budget as int) =~= walk@ + q.skip(i + 1));
                    assert(out0 + emitted(tail, budget as int) =~= out@);
                }
            } else {
                out.push((c, t));
                walk.push((c, 0));
                budget = budget - t;
                proof {
                    assert(out@ + emitted(q.skip(i + 1), budget as int) =~= out0
                        + emitted(tail, budget + t));
                    assert(walk@ + walked(q.skip(i + 1), budget as int) =~= walk0
                        + walked(tail, budget + t));
                }
            }
            i = i + 1;
        }
        proof {
            assert(q.skip(n as int) =~= Seq::<Entry>::empty());
            assert(walk@ + q.skip(n as int) =~= walk@);
            assert(walk@ + Seq::<Entry>::empty() =~= walk@);
        }
        self.command_pool = Self::consume(&walk);
        self.is_running = self.command_pool.len() > 0;
        out
    }

    /// The entries of `cmds` with time left.
    fn consume(cmds: &Vec<Entry>) -> (r: Vec<Entry>)
        ensures
            r@ == purged(cmds@),
            all_positive(r@),
    {
        let mut r: Vec<Entry> = Vec::new();
        let mut i: usize = 0;
        while i < cmds.len()
            invariant
                i <= cmds@.len(),
                r@ == purged(cmds@.take(i as int)),
                all_positive(r@),
            decreases cmds.len() - i,
        {
            let e = cmds[i];
            proof {
                assert(cmds@.take(i + 1).drop_last() =~= cmds@.take(i as int));
                assert(cmds@.take(i + 1).last() == e);
            }
            if e.1 > 0 {
                r.push(e);
            }
            i = i + 1;
        }
        proof {
            assert(cmds@.take(cmds@.len() as int) =~= cmds@);
        }
        r
    }

    /// Stops playback and clears the queue.
    pub fn stop(&mut self)
        ensures
            final(self).wf(),
            !final(self).is_running,
            final(self).command_pool@.len() == 0,
    {
        self.is_running = false;
        self.command_pool = Vec::new();
    }
}

/// A copy of `cmds`.
fn copy_entries(cmds: &Vec<Entry>) -> (r: Vec<Entry>)
    ensures
        r@ == cmds@,
{
    let mut r: Vec<Entry> = Vec::new();
    let mut i: usize = 0;
    while i < cmds.len()
        invariant
            i <= cmds@.len(),
            r@ == cmds@.take(i as int),
        decreases cmds.len() - i,
    {
        r.push(cmds[i]);
        i = i + 1;
        proof {
            assert(r@ =~= cmds@.take(i as int));
        }
    }
    proof {
        assert(cmds@.take(cmds@.len() as int) =~= cmds@);
    }
    r
}

/// Sum of a sequence of frame times.
pub open spec fn sum_of(ds: Seq<u64>) -> int
    decreases ds.len(),
{
    if ds.len() == 0 {
        0
    } else {
        ds[0] + sum_of(ds.drop_first())
    }
}

/// Total time handed out by successive steps of the frame times `ds`,
/// starting from the queue `q`.
pub open spec fn played(q: Seq<Entry>, ds: Seq<u64>) -> int
    decreases ds.len(),
{
    if ds.len() == 0 {
        0
    } else {
        total(emitted(q, ds[0] as int)) + played(remaining(q, ds[0] as int), ds.drop_first())
    }
}

/// The queue left after successive steps of the frame times `ds`.
pub open spec fn after(q: Seq<Entry>, ds: Seq<u64>) -> Seq<Entry>
    decreases ds.len(),
{
    if ds.len() == 0 {
        q
    } else {
        after(remaining(q, ds[0] as int), ds.drop_first())
    }
}

proof fn lemma_total_nonnegative(q: Seq<Entry>)
    ensures
        total(q) >= 0,
    decreases q.len(),
{
    if q.len() > 0 {
        lemma_total_nonnegative(q.drop_first());
    }
}

proof fn lemma_total_positive(q: Seq<Entry>)
    requires
        all_positive(q),
    ensures
        total(q) == 0 <==> q.len() == 0,
    decreases q.len(),
{
    if q.len() > 0 {
        assert(q[0].1 > 0);
        assert(all_positive(q.drop_first()));
        lemma_total_nonnegative(q.drop_first());
    }
}

proof fn lemma_total_push(s: Seq<Entry>, e: Entry)
    ensures
        total(s.push(e)) == total(s) + e.1,
    decreases s.len(),
{
    if s.len() == 0 {
        assert(s.push(e).drop_first() =~= Seq::<Entry>::empty());
        assert(total(s.push(e).drop_first()) == 0);
        assert(total(s) == 0);
    } else {
        assert(s.push(e).drop_first() =~= s.drop_first().push(e));
        lemma_total_push(s.drop_first(), e);
    }
}

/// Removing the entries without time keeps the total, and leaves only
/// entries with time.
proof fn lemma_purged(s: Seq<Entry>)
    ensures
        total(purged(s)) == total(s),
        all_positive(purged(s)),
    decreases s.len(),
{
    if s.len() > 0 {
        lemma_purged(s.drop_last());
        assert(s.drop_last().push(s.last()) =~= s);
        lemma_total_push(s.drop_last(), s.last());
        if s.last().1 > 0 {
            lemma_total_push(purged(s.drop_last()), s.last());
            let p = purged(s.drop_last()).push(s.last());
            assert forall|j: int| 0 <= j < p.len() implies #[trigger] p[j].1 > 0 by {
                if j < p.len() - 1 {
                    assert(p[j] == purged(s.drop_last())[j]);
                }
            }
        }
    }
}

/// The walk of one step hands out exactly the smaller of the budget and the
/// time queued, and keeps the difference.
proof fn lemma_walk(q: Seq<Entry>, budget: int)
    requires
        budget >= 0,
    ensures
        total(emitted(q, budget)) == if budget < total(q) { budget } else { total(q) },
        total(walked(q, budget)) == total(q) - total(emitted(q, budget)),
    decreases q.len(),
{
    lemma_total_nonnegative(q);
    if q.len() > 0 {
        let t = q[0].1 as int;
        let rest = q.drop_first();
        lemma_total_nonnegative(rest);
        if budget <= t {
            let e = seq![(q[0].0, budget as u64)];
            assert(e.drop_first() =~= Seq::<Entry>::empty());
            assert(total(e.drop_first()) == 0);
            assert(total(e) == budget);
            let w = seq![(q[0].0, (t - budget) as u64)] + rest;
            assert(w.drop_first() =~= rest);
        } else {
            lemma_walk(rest, budget - t);
            let e = emitted(rest, budget - t);
            assert((seq![q[0]] + e).drop_first() =~= e);
            let w = walked(rest, budget - t);
            assert((seq![(q[0].0, 0u64)] + w).drop_first() =~= w);
        }
    }
}

/// One step of `budget` hands out exactly the smaller of the budget and the
/// time queued, keeps the difference queued, and empties the queue exactly
/// when the budget covers all of it.
pub proof fn lemma_step_conserves_time(q: Seq<Entry>, budget: int)
    requires
        budget >= 0,
    ensures
        total(emitted(q, budget)) == if budget < total(q) { budget } else { total(q) },
        total(remaining(q, budget)) == total(q) - total(emitted(q, budget)),
        remaining(q, budget).len() == 0 <==> budget >= total(q),
{
    lemma_walk(q, budget);
    lemma_purged(walked(q, budget));
    lemma_total_positive(remaining(q, budget));
}

/// Successive steps (at least one) whose frame times add up to at most the
/// time queued hand out exactly that much time, and leave the queue empty
/// exactly when they add up to all of it.
pub proof fn time_conservation(q: Seq<Entry>, ds: Seq<u64>)
    requires
        ds.len() > 0,
        sum_of(ds) <= total(q),
    ensures
        played(q, ds) == sum_of(ds),
        total(after(q, ds)) == total(q) - sum_of(ds),
        after(q, ds).len() == 0 <==> sum_of(ds) == total(q),
    decreases ds.len(),
{
    let d = ds[0] as int;
    let rest = ds.drop_first();
    lemma_sum_nonnegative(rest);
    lemma_step_conserves_time(q, d);
    if rest.len() == 0 {
        assert(sum_of(rest) == 0);
        assert(played(remaining(q, d), rest) == 0);
        assert(after(remaining(q, d), rest) == remaining(q, d));
    } else {
        time_conservation(remaining(q, d), rest);
    }
}

proof fn lemma_sum_nonnegative(ds: Seq<u64>)
    ensures
        sum_of(ds) >= 0,
    decreases ds.len(),
{
    if ds.len() > 0 {
        lemma_sum_nonnegative(ds.drop_first());
    }
}

} // verus!
