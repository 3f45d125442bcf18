//! Fixed-capacity sliding window of recent focus-point samples.

use vstd::prelude::*;

use crate::geometry::COORD_LIMIT;
use crate::physics::div_trunc;
use vstd::arithmetic::div_mod::lemma_div_by_multiple;
use vstd::arithmetic::div_mod::lemma_div_is_ordered;

verus! {

/// Largest capacity a follow buffer may be created with; keeps the sum
/// of a full window of bounded samples far inside `i64`.
pub const FOLLOW_BUFFER_CAPACITY_LIMIT: usize = 1_000_000;

/// The sum of a sequence of samples.
pub open spec fn seq_sum(s: Seq<i64>) -> int
    decreases s.len(),
{
    if s.len() == 0 {
        0
    } else {
        seq_sum(s.drop_last()) + s.last()
    }
}

/// The truncated arithmetic mean of a window of samples (meaningful only
/// for a non-empty window).
pub open spec fn mean_of(s: Seq<i64>) -> int {
    div_trunc(seq_sum(s), s.len() as int)
}

/// One push into a window: the new sample goes to the back, and the
/// oldest sample leaves if the window would exceed its capacity.
pub open spec fn window_push(s: Seq<i64>, capacity: int, val: i64) -> Seq<i64> {
    if s.len() < capacity {
        s.push(val)
    } else {
        s.push(val).drop_first()
    }
}

/// The window after pushing each of `vals` in order into `init`.
pub open spec fn window_push_all(init: Seq<i64>, capacity: int, vals: Seq<i64>) -> Seq<i64>
    decreases vals.len(),
{
    if vals.len() == 0 {
        init
    } else {
        window_push(window_push_all(init, capacity, vals.drop_last()), capacity, vals.last())
    }
}

/// A fixed-capacity FIFO queue of recent scalar samples: the length never
/// exceeds the capacity, and the oldest sample is evicted on overflow.
pub struct FollowBuffer {
    pub samples: Vec<i64>,
    pub capacity: usize,
}

impl FollowBuffer {
    /// Well-formed: within capacity, and every sample is a bounded
    /// world coordinate.
    pub open spec fn wf(&self) -> bool {
        &&& 1 <= self.capacity <= FOLLOW_BUFFER_CAPACITY_LIMIT
        &&& self.samples@.len() <= self.capacity
        &&& forall|i: int|
            0 <= i < self.samples@.len() ==> -COORD_LIMIT <= #[trigger] self.samples@[i]
                <= COORD_LIMIT
    }

    /// The most recent sample, if any.
    pub open spec fn last_spec(&self) -> Option<i64> {
        if self.samples@.len() == 0 {
            None
        } else {
            Some(self.samples@.last())
        }
    }

    /// The truncated arithmetic mean of the samples (meaningful only for
    /// a non-empty buffer).
    pub open spec fn mean_spec(&self) -> int {
        mean_of(self.samples@)
    }

    pub fn new(capacity: usize) -> (r: FollowBuffer)
        requires
            1 <= capacity <= FOLLOW_BUFFER_CAPACITY_LIMIT,
        ensures
            r.wf(),
            r.capacity == capacity,
            r.samples@ == Seq::<i64>::empty(),
    {
        let r = FollowBuffer { samples: Vec::new(), capacity };
        proof {
            assert(r.samples@ =~= Seq::<i64>::empty());
        }
        r
    }

    pub fn push(&mut self, val: i64)
        requires
            old(self).wf(),
            -COORD_LIMIT <= val <= COORD_LIMIT,
        ensures
            final(self).wf(),
            final(self).capacity == old(self).capacity,
            final(self).samples@ == window_push(
                old(self).samples@,
                old(self).capacity as int,
                val,
            ),
            final(self).samples@.len() >= 1,
    {
        self.samples.push(val);
        if self.samples.len() > self.capacity {
            self.samples.remove(0);
            proof {
                assert(self.samples@ =~= window_push(
                    old(self).samples@,
                    old(self).capacity as int,
                    val,
                ));
            }
        }
    }

    /// The truncated arithmetic mean of the samples now in the window.
    pub fn mean(&self) -> (r: i64)
        requires
            self.wf(),
            self.samples@.len() > 0,
        ensures
            r == self.mean_spec(),
            -COORD_LIMIT <= r <= COORD_LIMIT,
    {
        let ghost s = self.samples@;
        let mut sum: i64 = 0;
        let mut idx: usize = 0;
        let len = self.samples.len();
        while idx < len
            invariant
                len == s.len(),
                s == self.samples@,
                self.wf(),
                0 <= idx <= len,
                sum == seq_sum(s.take(idx as int)),
                -(idx as int) * COORD_LIMIT <= sum <= (idx as int) * COORD_LIMIT,
            decreases len - idx,
        {
            let v = self.samples[idx];
            proof {
                assert(s.take(idx as int + 1).drop_last() =~= s.take(idx as int));
            }
            sum = sum + v;
            idx = idx + 1;
        }
        proof {
            assert(s.take(len as int) =~= s);
            lemma_mean_in_coordinate_bounds(s);
        }
        sum / (len as i64)
    }

    /// The most recent sample, if any.
    pub fn last(&self) -> (r: Option<i64>)
        ensures
            r == self.last_spec(),
    {
        if self.samples.len() == 0 {
            None
        } else {
            Some(self.samples[self.samples.len() - 1])
        }
    }
}

/// The sum of a window of bounded samples is bounded by the window's
/// length times the coordinate bound.
proof fn lemma_seq_sum_bounded(s: Seq<i64>)
    requires
        forall|i: int| 0 <= i < s.len() ==> -COORD_LIMIT <= #[trigger] s[i] <= COORD_LIMIT,
    ensures
        -(s.len() as int) * COORD_LIMIT <= seq_sum(s) <= (s.len() as int) * COORD_LIMIT,
    decreases s.len(),
{
    if s.len() > 0 {
        lemma_seq_sum_bounded(s.drop_last());
    }
}

/// The truncated mean of a non-empty window of bounded samples is itself
/// a bounded coordinate.
proof fn lemma_mean_in_coordinate_bounds(s: Seq<i64>)
    requires
        s.len() > 0,
        forall|i: int| 0 <= i < s.len() ==> -COORD_LIMIT <= #[trigger] s[i] <= COORD_LIMIT,
    ensures
        -COORD_LIMIT <= div_trunc(seq_sum(s), s.len() as int) <= COORD_LIMIT,
{
    let n = s.len() as int;
    let sum = seq_sum(s);
    lemma_seq_sum_bounded(s);
    if sum >= 0 {
        lemma_div_is_ordered(sum, n * COORD_LIMIT, n);
        lemma_div_by_multiple(COORD_LIMIT as int, n);
    } else {
        lemma_div_is_ordered(-sum, n * COORD_LIMIT, n);
        lemma_div_by_multiple(COORD_LIMIT as int, n);
    }
}

/// Pushing at least `capacity` samples into any well-formed window leaves
/// exactly the most recent `capacity` of them, oldest first.
pub proof fn lemma_window_retains_recent(init: Seq<i64>, capacity: int, vals: Seq<i64>)
    requires
        1 <= capacity,
        init.len() <= capacity,
        vals.len() >= capacity,
    ensures
        window_push_all(init, capacity, vals) == vals.subrange(
            vals.len() - capacity,
            vals.len() as int,
        ),
{
    lemma_window_is_tail_of_history(init, capacity, vals);
    let all = init + vals;
    assert(all.subrange(all.len() - capacity, all.len() as int) =~= vals.subrange(
        vals.len() - capacity,
        vals.len() as int,
    ));
}

/// The window after a run of pushes is the tail of the concatenated
/// history, cut to the capacity.
pub proof fn lemma_window_is_tail_of_history(init: Seq<i64>, capacity: int, vals: Seq<i64>)
    requires
        1 <= capacity,
        init.len() <= capacity,
    ensures
        window_push_all(init, capacity, vals) == {
            let all = init + vals;
            let keep = if all.len() <= capacity {
                all.len() as int
            } else {
                capacity
            };
            all.subrange(all.len() - keep, all.len() as int)
        },
    decreases vals.len(),
{
    let all = init + vals;
    let keep = if all.len() <= capacity {
        all.len() as int
    } else {
        capacity
    };
    if vals.len() == 0 {
        assert(all.subrange(all.len() - keep, all.len() as int) =~= init);
    } else {
        lemma_window_is_tail_of_history(init, capacity, vals.drop_last());
        let prev_all = init + vals.drop_last();
        let prev_keep = if prev_all.len() <= capacity {
            prev_all.len() as int
        } else {
            capacity
        };
        let prev = prev_all.subrange(prev_all.len() - prev_keep, prev_all.len() as int);
        if prev.len() < capacity {
            assert(prev.push(vals.last()) =~= all.subrange(all.len() - keep, all.len() as int));
        } else {
            assert(prev.push(vals.last()).drop_first() =~= all.subrange(
                all.len() - keep,
                all.len() as int,
            ));
        }
    }
}

} // verus!
