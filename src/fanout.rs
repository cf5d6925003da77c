use vstd::prelude::*;

verus! {

/// Which of `n` concurrently running units of work, indexed `0..n`, have completed.
#[derive(Debug)]
pub struct FanoutTracker {
    pub done: Vec<bool>,
}

/// Every flag is set.
pub open spec fn all_true(s: Seq<bool>) -> bool {
    forall|i: int| 0 <= i < s.len() ==> #[trigger] s[i]
}

/// The flags of `n` units after the completions in `order` were reported, in turn.
pub open spec fn completed_after(n: nat, order: Seq<usize>) -> Seq<bool>
    decreases order.len(),
{
    if order.len() == 0 {
        Seq::new(n, |i: int| false)
    } else {
        let prev = completed_after(n, order.drop_last());
        if (order.last() as nat) < n {
            prev.update(order.last() as int, true)
        } else {
            prev
        }
    }
}

impl View for FanoutTracker {
    type V = Seq<bool>;

    open spec fn view(&self) -> Seq<bool> {
        self.done@
    }
}

impl FanoutTracker {
    /// A tracker for `n` units, none of them completed.
    pub fn new(n: usize) -> (r: FanoutTracker)
        ensures
            r@ == completed_after(n as nat, seq![]),
    {
        let mut done: Vec<bool> = Vec::new();
        let mut i: usize = 0;
        while i < n
            invariant
                i <= n,
                done@ == Seq::new(i as nat, |k: int| false),
            decreases n - i,
        {
            done.push(false);
            i = i + 1;
        }
        FanoutTracker { done }
    }

    /// The number of units tracked.
    pub fn len(&self) -> (r: usize)
        ensures
            r == self@.len(),
    {
        self.done.len()
    }

    /// Records that unit `i` completed; returns whether it was still running.
    pub fn complete(&mut self, i: usize) -> (r: bool)
        requires
            i < old(self)@.len(),
        ensures
            final(self)@ == old(self)@.update(i as int, true),
            r == !old(self)@[i as int],
    {
        let was_running = !self.done[i];
        self.done.set(i, true);
        was_running
    }

    /// Whether every unit has completed.
    pub fn all_complete(&self) -> (r: bool)
        ensures
            r == all_true(self@),
    {
        let mut i: usize = 0;
        while i < self.done.len()
            invariant
                i <= self.done@.len(),
                forall|k: int| 0 <= k < i ==> #[trigger] self.done@[k],
            decreases self.done@.len() - i,
        {
            if !self.done[i] {
                return false;
            }
            i = i + 1;
        }
        true
    }
}

proof fn lemma_completed_after_flags(n: nat, order: Seq<usize>)
    ensures
        completed_after(n, order).len() == n,
        forall|i: usize|
            (i as nat) < n ==> completed_after(n, order)[i as int] == #[trigger] order.contains(i),
    decreases order.len(),
{
    if order.len() > 0 {
        let init = order.drop_last();
        lemma_completed_after_flags(n, init);
        assert forall|i: usize| (i as nat) < n implies completed_after(n, order)[i as int]
            == #[trigger] order.contains(i) by {
            assert(init.contains(i) ==> completed_after(n, init)[i as int]);
            if order.contains(i) {
                let k = choose|k: int| 0 <= k < order.len() && order[k] == i;
                if k < order.len() - 1 {
                    assert(init[k] == i);
                }
            }
            if init.contains(i) {
                let k = choose|k: int| 0 <= k < init.len() && init[k] == i;
                assert(order[k] == i);
            }
        }
    }
}

/// A fanout of `n` units has completed exactly when every index below `n` is among the
/// completions reported, in whatever order they came; with no units it has completed
/// before any is reported.
pub proof fn lemma_fanout_completes_iff_all(n: usize, order: Seq<usize>)
    ensures
        all_true(completed_after(n as nat, order)) <==> forall|i: usize|
            i < n ==> #[trigger] order.contains(i),
        n == 0 ==> all_true(completed_after(n as nat, seq![])),
{
    lemma_completed_after_flags(n as nat, order);
    lemma_completed_after_flags(n as nat, seq![]);
    if all_true(completed_after(n as nat, order)) {
        assert forall|i: usize| i < n implies #[trigger] order.contains(i) by {
            assert(completed_after(n as nat, order)[i as int]);
        }
    }
    if forall|i: usize| i < n ==> #[trigger] order.contains(i) {
        assert forall|i: int| 0 <= i < completed_after(n as nat, order).len() implies #[trigger]
            completed_after(n as nat, order)[i] by {
            assert(order.contains(i as usize));
            assert(completed_after(n as nat, order)[(i as usize) as int] == order.contains(i as usize));
        }
    }
}

} // verus!
