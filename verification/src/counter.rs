//! A ready-made callback over a bank of counters.
//!
//! Interrupt callbacks usually tally events. This module ships a small
//! concrete callback whose environment is a `Vec<u64>` of counters, both as
//! a worked example of the [`Callback`] interface and as something concrete
//! for callers to wire into a table.

use vstd::prelude::*;

use crate::handler::Callback;

verus! {

/// The counter value after one increment, wrapping at the top.
pub open spec fn wrap_inc(x: u64) -> u64 {
    if x == u64::MAX {
        0
    } else {
        (x + 1) as u64
    }
}

/// The bank after one increment of counter `idx`: that entry is bumped and
/// every other entry is unchanged; an out-of-range index changes nothing.
pub open spec fn bumped(pre: Seq<u64>, idx: int) -> Seq<u64> {
    if 0 <= idx < pre.len() {
        pre.update(idx, wrap_inc(pre[idx]))
    } else {
        pre
    }
}

/// A callback that increments one counter of a `Vec<u64>` environment.
#[derive(Clone, Copy, Debug)]
pub struct Increment {
    /// Which counter of the bank to increment.
    pub idx: usize,
}

impl Callback<Vec<u64>> for Increment {
    open spec fn effect(&self, pre: Vec<u64>, post: Vec<u64>) -> bool {
        post@ == bumped(pre@, self.idx as int)
    }

    fn invoke(&self, env: &mut Vec<u64>) {
        if self.idx < env.len() {
            let v = env[self.idx];
            let w = if v == u64::MAX {
                0
            } else {
                v + 1
            };
            env[self.idx] = w;
        }
    }
}

/// Law: invoking the increment callback's effect `k` times in sequence adds
/// `k` to the chosen counter and leaves every other counter unchanged.
///
/// `trace` is the sequence of counter banks observed along the way, so
/// `trace.len() - 1` invocations connect its first state to its last.
pub proof fn lemma_repeated_increment(trace: Seq<Seq<u64>>, idx: int)
    requires
        trace.len() >= 1,
        0 <= idx < trace[0].len(),
        forall|j: int| 0 <= j < trace.len() - 1 ==> trace[j + 1] == bumped(#[trigger] trace[j], idx),
        trace[0][idx] + trace.len() - 1 <= u64::MAX,
    ensures
        trace.last().len() == trace[0].len(),
        trace.last()[idx] == trace[0][idx] + trace.len() - 1,
        forall|m: int| 0 <= m < trace[0].len() && m != idx ==> trace.last()[m] == trace[0][m],
    decreases trace.len(),
{
    if trace.len() > 1 {
        let tail = trace.subrange(1, trace.len() as int);
        assert(trace[1] == bumped(trace[0], idx));
        assert forall|j: int| 0 <= j < tail.len() - 1 implies tail[j + 1] == bumped(
            #[trigger] tail[j],
            idx,
        ) by {
            assert(tail[j] == trace[j + 1]);
            assert(tail[j + 1] == trace[j + 2]);
        }
        lemma_repeated_increment(tail, idx);
        assert(trace.last() == tail.last());
    }
}

} // verus!
