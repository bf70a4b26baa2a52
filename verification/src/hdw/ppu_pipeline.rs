use vstd::prelude::*;

verus! {

/// Fetcher states of the pixel pipeline.
#[derive(Copy, Clone, PartialEq, Eq, Structural, Debug)]
pub enum FIFOState {
    TILE,
    DATA0,
    DATA1,
    IDLE,
    PUSH,
}

/// A bounded queue of pixels.
pub struct FIFO {
    pub entries: Vec<u32>,
    pub max_size: usize,
}

impl FIFO {
    pub fn new() -> (r: Self)
        ensures
            r.entries@ == Seq::<u32>::empty(),
            r.max_size == 10,
    {
        FIFO { entries: Vec::new(), max_size: 10 }
    }
}

pub struct PixelFIFO {
    pub state: FIFOState,
    pub fifo: FIFO,
    pub line_x: u8,
    pub pushed_x: u8,
    pub fetch_x: u8,
    pub bgw_fetch_data: [u8; 3],
    pub fetch_entry_data: [u8; 6],
    pub map_x: u8,
    pub map_y: u8,
    pub tile_y: u8,
    pub fifo_x: u8,
}

impl PixelFIFO {
    pub fn new() -> (r: Self)
        ensures
            r.state == FIFOState::TILE,
            r.fifo.entries@ == Seq::<u32>::empty(),
            r.fifo.max_size == 10,
            r.line_x == 0 && r.pushed_x == 0 && r.fetch_x == 0 && r.map_x == 0 && r.map_y == 0
                && r.tile_y == 0 && r.fifo_x == 0,
            r.bgw_fetch_data@ == seq![0u8, 0u8, 0u8],
            r.fetch_entry_data@ == seq![0u8, 0u8, 0u8, 0u8, 0u8, 0u8],
    {
        let r = PixelFIFO {
            state: FIFOState::TILE,
            fifo: FIFO::new(),
            line_x: 0,
            pushed_x: 0,
            fetch_x: 0,
            bgw_fetch_data: [0; 3],
            fetch_entry_data: [0; 6],
            map_x: 0,
            map_y: 0,
            tile_y: 0,
            fifo_x: 0,
        };
        assert(r.bgw_fetch_data@ =~= seq![0u8, 0u8, 0u8]);
        assert(r.fetch_entry_data@ =~= seq![0u8, 0u8, 0u8, 0u8, 0u8, 0u8]);
        r
    }

    /// Appends a pixel unless the queue already holds `max_size` pixels.
    pub fn pixel_fifo_push(&mut self, value: u32)
        ensures
            *final(self) == (PixelFIFO { fifo: FIFO { entries: final(self).fifo.entries, ..old(self).fifo }, ..*old(self) }),
            final(self).fifo.entries@ == fifo_pushed(old(self).fifo.entries@, value, old(self).fifo.max_size as nat),
    {
        if self.fifo.entries.len() < self.fifo.max_size {
            self.fifo.entries.push(value);
        }
    }

    /// Removes and returns the oldest pixel, or `None` when the queue is empty.
    pub fn pixel_fifo_pop(&mut self) -> (r: Option<u32>)
        ensures
            *final(self) == (PixelFIFO { fifo: FIFO { entries: final(self).fifo.entries, ..old(self).fifo }, ..*old(self) }),
            (r, final(self).fifo.entries@) == fifo_popped(old(self).fifo.entries@),
    {
        if self.fifo.entries.len() == 0 {
            None
        } else {
            let v = self.fifo.entries.remove(0);
            assert(self.fifo.entries@ =~= old(self).fifo.entries@.drop_first());
            Some(v)
        }
    }

    pub fn fifo_size(&self) -> (r: usize)
        ensures
            r == self.fifo.entries@.len(),
    {
        self.fifo.entries.len()
    }

    /// Empties the queue.
    pub fn pipeline_fifo_reset(&mut self)
        ensures
            final(self).fifo.entries@ == Seq::<u32>::empty(),
            *final(self) == (PixelFIFO { fifo: FIFO { entries: final(self).fifo.entries, ..old(self).fifo }, ..*old(self) }),
    {
        while self.fifo_size() > 0
            invariant
                *self == (PixelFIFO { fifo: FIFO { entries: self.fifo.entries, ..old(self).fifo }, ..*old(self) }),
            decreases self.fifo.entries@.len(),
        {
            self.pixel_fifo_pop();
        }
        self.fifo.entries.clear();
    }
}

/// The queue after one push of `x` onto `q` with room for `max` pixels: a push onto a
/// full queue is dropped.
pub open spec fn fifo_pushed(q: Seq<u32>, x: u32, max: nat) -> Seq<u32> {
    if q.len() < max {
        q.push(x)
    } else {
        q
    }
}

/// What one pop of `q` returns, the oldest pixel or `None`, and the queue left.
pub open spec fn fifo_popped(q: Seq<u32>) -> (Option<u32>, Seq<u32>) {
    if q.len() == 0 {
        (None, q)
    } else {
        (Some(q[0]), q.drop_first())
    }
}

/// The queue after `pixel_fifo_push` of each of `xs` in turn onto `q` with room for
/// `max` pixels: a push onto a full queue is dropped.
pub open spec fn pushed_all(q: Seq<u32>, xs: Seq<u32>, max: nat) -> Seq<u32>
    decreases xs.len(),
{
    if xs.len() == 0 {
        q
    } else {
        pushed_all(fifo_pushed(q, xs[0], max), xs.drop_first(), max)
    }
}

/// What `k` calls of `pixel_fifo_pop` on queue `q` return, in order, and the queue left.
pub open spec fn popped_n(q: Seq<u32>, k: nat) -> (Seq<Option<u32>>, Seq<u32>)
    decreases k,
{
    if k == 0 {
        (Seq::empty(), q)
    } else {
        let (r, q1) = fifo_popped(q);
        let (rs, q2) = popped_n(q1, (k - 1) as nat);
        (seq![r] + rs, q2)
    }
}

proof fn lemma_pushed_all(q: Seq<u32>, xs: Seq<u32>, max: nat)
    requires
        q.len() <= max,
    ensures
        pushed_all(q, xs, max) == (q + xs).take(
            if q.len() + xs.len() < max { (q.len() + xs.len()) as int } else { max as int },
        ),
    decreases xs.len(),
{
    if xs.len() > 0 {
        let q1 = if q.len() < max { q.push(xs[0]) } else { q };
        lemma_pushed_all(q1, xs.drop_first(), max);
        if q.len() < max {
            assert(q1 + xs.drop_first() =~= q + xs);
        } else {
            assert((q + xs.drop_first()).take(max as int) =~= (q + xs).take(max as int));
        }
    } else {
        assert(q + xs =~= q);
    }
}

proof fn lemma_popped_n(q: Seq<u32>)
    ensures
        popped_n(q, q.len()).0 == q.map_values(|x: u32| Some(x)),
        popped_n(q, q.len()).1 == Seq::<u32>::empty(),
    decreases q.len(),
{
    if q.len() > 0 {
        lemma_popped_n(q.drop_first());
        assert(seq![Some(q[0])] + q.drop_first().map_values(|x: u32| Some(x)) =~= q.map_values(
            |x: u32| Some(x),
        ));
    } else {
        assert(q.map_values(|x: u32| Some(x)) =~= Seq::<Option<u32>>::empty());
    }
}

/// The pixel queue is first in, first out: after pushing `xs` onto an empty queue that
/// holds at most `max` pixels, the first min(|xs|, max) of them are kept in push order and
/// the rest dropped; popping then returns the kept ones in that order, and the pop after
/// them returns `None`.
pub proof fn law_fifo_order(xs: Seq<u32>, max: nat)
    ensures
        ({
            let k = if xs.len() < max { xs.len() as int } else { max as int };
            let q = pushed_all(Seq::<u32>::empty(), xs, max);
            &&& q == xs.take(k)
            &&& popped_n(q, k as nat).0 == xs.take(k).map_values(|x: u32| Some(x))
            &&& popped_n(q, (k + 1) as nat).0 == xs.take(k).map_values(|x: u32| Some(x)).push(None)
        }),
{
    let k = if xs.len() < max { xs.len() as int } else { max as int };
    lemma_pushed_all(Seq::<u32>::empty(), xs, max);
    assert(Seq::<u32>::empty() + xs =~= xs);
    let q = pushed_all(Seq::<u32>::empty(), xs, max);
    assert(q.len() == k);
    lemma_popped_n(q);
    lemma_popped_n_extra(q);
}

proof fn lemma_popped_n_extra(q: Seq<u32>)
    ensures
        popped_n(q, q.len() + 1).0 == popped_n(q, q.len()).0.push(None),
    decreases q.len(),
{
    reveal_with_fuel(popped_n, 2);
    if q.len() > 0 {
        lemma_popped_n_extra(q.drop_first());
        let (rs, _) = popped_n(q.drop_first(), q.drop_first().len());
        assert(seq![Some(q[0])] + rs.push(None) =~= (seq![Some(q[0])] + rs).push(None));
    } else {
        assert(seq![None::<u32>] + Seq::<Option<u32>>::empty() =~= Seq::<Option<u32>>::empty().push(None));
    }
}

} // verus!
