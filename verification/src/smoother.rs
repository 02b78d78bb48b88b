use vstd::prelude::*;

verus! {

/// Number of samples the moving average spans.
pub const AVG_WINDOW: usize = 10;

/// Sum of the samples of `s`.
pub open spec fn sum_of(s: Seq<u32>) -> int
    decreases s.len(),
{
    if s.len() == 0 {
        0
    } else {
        sum_of(s.drop_last()) + s.last()
    }
}

/// A sum of samples that all stay within `b` stays within `len * b`.
pub proof fn lemma_sum_bound(s: Seq<u32>, b: int)
    requires
        forall|i: int| 0 <= i < s.len() ==> s[i] <= b,
    ensures
        0 <= sum_of(s) <= s.len() * b,
    decreases s.len(),
{
    if s.len() > 0 {
        lemma_sum_bound(s.drop_last(), b);
        assert(s.len() * b == (s.len() - 1) * b + b) by (nonlinear_arith);
    }
}

/// Fixed-window moving average over the decoded sensor samples: a circular
/// buffer of the last `AVG_WINDOW` raw samples, zero-filled at start, with a
/// wrapping write index.
pub struct Smoother {
    pub window: Vec<u32>,
    pub idx: usize,
}

impl Smoother {
    /// The circular buffer always spans exactly `AVG_WINDOW` slots and the
    /// write index stays inside it.
    pub open spec fn wf(&self) -> bool {
        &&& self.window@.len() == AVG_WINDOW
        &&& self.idx < AVG_WINDOW
    }

    /// A fresh smoother: every slot zero, index at the first slot.
    pub fn new() -> (s: Smoother)
        ensures
            s.wf(),
            s.window@ =~= Seq::<u32>::new(AVG_WINDOW as nat, |i: int| 0u32),
            s.idx == 0,
    {
        let mut w: Vec<u32> = Vec::new();
        let mut i: usize = 0;
        while i < AVG_WINDOW
            invariant
                i <= AVG_WINDOW,
                w@.len() == i,
                forall|j: int| 0 <= j < i ==> w@[j] == 0u32,
            decreases AVG_WINDOW - i,
        {
            w.push(0);
            i = i + 1;
        }
        Smoother { window: w, idx: 0 }
    }

    /// Take in one raw sample and yield the refreshed mean: overwrite the
    /// slot at the write index, advance the index with wraparound, and return
    /// the floor of the window's sum divided by the window size.
    pub fn push(&mut self, val: u32) -> (avg: u32)
        requires
            old(self).wf(),
        ensures
            final(self).wf(),
            final(self).window@ == old(self).window@.update(old(self).idx as int, val),
            final(self).idx == (old(self).idx + 1) % (AVG_WINDOW as int),
            avg == sum_of(final(self).window@) / (AVG_WINDOW as int),
    {
        self.window[self.idx] = val;
        self.idx = (self.idx + 1) % AVG_WINDOW;
        let w = &self.window;
        let mut total: u64 = 0;
        let mut i: usize = 0;
        while i < AVG_WINDOW
            invariant
                w@.len() == AVG_WINDOW,
                i <= AVG_WINDOW,
                total == sum_of(w@.take(i as int)),
                total <= i * 0xffff_ffffu64,
            decreases AVG_WINDOW - i,
        {
            proof {
                assert((w@.take(i + 1)).drop_last() =~= w@.take(i as int));
                assert((w@.take(i + 1)).last() == w@[i as int]);
            }
            total = total + (w[i] as u64);
            i = i + 1;
        }
        proof {
            assert(w@.take(AVG_WINDOW as int) =~= w@);
        }
        (total / (AVG_WINDOW as u64)) as u32
    }
}

/// The window after feeding `k` copies of `v` into a fresh smoother: the
/// first `min(k, AVG_WINDOW)` slots hold `v`, the rest still hold zero.
pub open spec fn const_fed_window(v: u32, k: nat) -> Seq<u32> {
    Seq::new(
        AVG_WINDOW as nat,
        |i: int|
            if i < k {
                v
            } else {
                0u32
            },
    )
}

/// Sum of a window whose first `filled` slots hold `v` and whose others hold
/// zero.
pub proof fn lemma_const_fed_sum(v: u32, k: nat)
    ensures
        sum_of(const_fed_window(v, k)) == (if k < AVG_WINDOW {
            k as int * v
        } else {
            AVG_WINDOW as int * v
        }),
{
    lemma_partial_const_sum(v, k, AVG_WINDOW as nat);
}

/// The transition `push` makes on the ghost state: overwrite the slot at the
/// write index, advance the index with wraparound.
pub open spec fn push_spec(w: Seq<u32>, idx: int, v: u32) -> (Seq<u32>, int) {
    (w.update(idx, v), (idx + 1) % (AVG_WINDOW as int))
}

/// The mean `push` reports for a window.
pub open spec fn avg_of(w: Seq<u32>) -> int {
    sum_of(w) / (AVG_WINDOW as int)
}

/// Ghost state after feeding `k` copies of `v` into a fresh smoother.
pub open spec fn const_run(v: u32, k: nat) -> (Seq<u32>, int)
    decreases k,
{
    if k == 0 {
        (Seq::new(AVG_WINDOW as nat, |i: int| 0u32), 0)
    } else {
        let prev = const_run(v, (k - 1) as nat);
        push_spec(prev.0, prev.1, v)
    }
}

/// The moving average of a constant stream of value `v` converges: once the
/// window has filled, every reported mean equals `v` exactly; while it is
/// still zero-padded and `v` is positive, every reported mean stays strictly
/// below `v`.
pub proof fn lemma_const_stream_converges(v: u32, k: nat)
    ensures
        (const_run(v, k)).0 == const_fed_window(v, k),
        (const_run(v, k)).1 == k % (AVG_WINDOW as nat),
        k >= AVG_WINDOW ==> avg_of((const_run(v, k)).0) == v,
        1 <= k < AVG_WINDOW && v > 0 ==> avg_of((const_run(v, k)).0) < v,
    decreases k,
{
    if k == 0 {
        assert((const_run(v, 0)).0 =~= const_fed_window(v, 0));
    } else {
        lemma_const_stream_converges(v, (k - 1) as nat);
        assert((const_fed_window(v, (k - 1) as nat)).update(
            ((k - 1) as nat % (AVG_WINDOW as nat)) as int,
            v,
        ) =~= const_fed_window(v, k));
        lemma_const_fed_sum(v, k);
        if k >= AVG_WINDOW {
            assert((AVG_WINDOW as int) * v / (AVG_WINDOW as int) == v) by (nonlinear_arith);
        }
        if 1 <= k < AVG_WINDOW && v > 0 {
            assert((k as int) * v / (AVG_WINDOW as int) < v) by (nonlinear_arith)
                requires
                    1 <= k < 10,
                    v > 0,
                    AVG_WINDOW == 10,
            ;
        }
    }
}

proof fn lemma_partial_const_sum(v: u32, k: nat, len: nat)
    ensures
        sum_of(
            Seq::new(
                len,
                |i: int|
                    if i < k {
                        v
                    } else {
                        0u32
                    },
            ),
        ) == (if k < len {
            k as int * v
        } else {
            len as int * v
        }),
    decreases len,
{
    let s = Seq::new(
        len,
        |i: int|
            if i < k {
                v
            } else {
                0u32
            },
    );
    if len > 0 {
        lemma_partial_const_sum(v, k, (len - 1) as nat);
        let s1 = Seq::new(
            (len - 1) as nat,
            |i: int|
                if i < k {
                    v
                } else {
                    0u32
                },
        );
        assert(s.drop_last() =~= s1);
        assert((len - 1) as int * v + v == len as int * v) by (nonlinear_arith);
    }
}

} // verus!
