use vstd::prelude::*;

verus! {

/// Number of positions that domain warping keeps.
pub const MAX_WARP_ITERATIONS: usize = 4;

/// The slots after `p` is recorded into `h`: `p` first, then the three
/// most recent of `h`; the oldest falls out.
pub open spec fn record_spec<T>(h: Seq<T>, p: T) -> Seq<T> {
    seq![p] + h.take(3)
}

/// The slots after the positions `xs` are recorded, in order, into a
/// history whose four slots all start as `empty`.
pub open spec fn history_of<T>(empty: T, xs: Seq<T>) -> Seq<T>
    decreases xs.len(),
{
    if xs.len() == 0 {
        seq![empty, empty, empty, empty]
    } else {
        record_spec(history_of(empty, xs.drop_last()), xs.last())
    }
}

/// The positions that domain warping went through, most recent first:
/// `positions[0]` is the last iteration, `positions[1]` the one before, and
/// so on. Slots that no iteration reached keep their starting value.
pub struct WarpHistory<T> {
    pub positions: [T; 4],
}

impl<T> View for WarpHistory<T> {
    type V = Seq<T>;

    open spec fn view(&self) -> Seq<T> {
        self.positions@
    }
}

impl<T: Copy> WarpHistory<T> {
    /// A history whose four slots hold `empty`.
    pub fn new(empty: T) -> (r: Self)
        ensures
            r@ == history_of(empty, Seq::<T>::empty()),
    {
        let r = WarpHistory { positions: [empty, empty, empty, empty] };
        assert(r@ =~= seq![empty, empty, empty, empty]);
        r
    }

    /// Records the position reached by one more iteration.
    pub fn record(&mut self, p: T)
        ensures
            final(self)@ == record_spec(old(self)@, p),
    {
        let a = self.positions;
        self.positions = [p, a[0], a[1], a[2]];
        assert(self@ =~= record_spec(a@, p));
    }

    /// The position in the last slot, from which the warped noise is
    /// sampled: the fourth most recent iteration, or the starting value when
    /// fewer than four iterations ran.
    pub fn sample_position(&self) -> (r: T)
        ensures
            r == self@[3],
    {
        self.positions[3]
    }

    /// The position in the first slot: the most recent iteration, or the
    /// starting value when none ran.
    pub fn latest(&self) -> (r: T)
        ensures
            r == self@[0],
    {
        self.positions[0]
    }
}

/// After `n` positions are recorded into a fresh history, the history has
/// four slots; slot `k` holds the position of iteration `n - 1 - k` for
/// `k < min(n, 4)`, and every later slot still holds the starting value.
pub proof fn lemma_history_slots<T>(empty: T, xs: Seq<T>)
    ensures
        history_of(empty, xs).len() == 4,
        forall|k: int|
            0 <= k < 4 && k < xs.len() ==> #[trigger] history_of(empty, xs)[k] == xs[xs.len() - 1
                - k],
        forall|k: int| xs.len() <= k < 4 ==> #[trigger] history_of(empty, xs)[k] == empty,
    decreases xs.len(),
{
    if xs.len() > 0 {
        let ys = xs.drop_last();
        lemma_history_slots(empty, ys);
        let h = history_of(empty, ys);
        let r = history_of(empty, xs);
        assert(r == record_spec(h, xs.last()));
        assert forall|k: int| 1 <= k < 4 implies #[trigger] r[k] == h[k - 1] by {}
        assert forall|k: int| 0 <= k < 4 && k < xs.len() implies #[trigger] r[k] == xs[xs.len()
            - 1 - k] by {
            if k > 0 {
                assert(r[k] == h[k - 1]);
                assert(h[k - 1] == ys[ys.len() - 1 - (k - 1)]);
            }
        }
        assert forall|k: int| xs.len() <= k < 4 implies #[trigger] r[k] == empty by {
            assert(r[k] == h[k - 1]);
        }
    }
}

} // verus!
