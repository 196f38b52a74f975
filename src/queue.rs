//! The bounded relay queue: fixed capacity, never blocks, FIFO order.
use crossbeam::queue::ArrayQueue;
use vstd::prelude::*;

verus! {

/// Largest capacity a relay queue may be built with.
pub const MAX_CAPACITY: usize = 65536;

#[verifier::external_type_specification]
#[verifier::external_body]
#[verifier::reject_recursive_types(T)]
pub struct ExArrayQueue<T>(ArrayQueue<T>);

/// The frames held by a queue, oldest first.
pub uninterp spec fn relay_items(q: ArrayQueue<Vec<i16>>) -> Seq<Vec<i16>>;

/// The capacity a queue was built with.
pub uninterp spec fn relay_capacity(q: ArrayQueue<Vec<i16>>) -> nat;

/// Relies on crossbeam's `ArrayQueue::new`: an empty queue of `cap` slots
/// (it panics on a zero capacity, and on one too large for its index stamps).
#[verifier::external_body]
fn slots_new(cap: usize) -> (r: ArrayQueue<Vec<i16>>)
    requires
        0 < cap <= MAX_CAPACITY,
    ensures
        relay_items(r) == Seq::<Vec<i16>>::empty(),
        relay_capacity(r) == cap as nat,
{
    ArrayQueue::new(cap)
}

/// Relies on `ArrayQueue::push_mut`: the value goes to the tail, or is handed
/// back unchanged when the queue is full.
#[verifier::external_body]
fn slots_push(q: &mut ArrayQueue<Vec<i16>>, v: Vec<i16>) -> (r: Result<(), Vec<i16>>)
    requires
        relay_items(*old(q)).len() <= relay_capacity(*old(q)),
    ensures
        relay_capacity(*final(q)) == relay_capacity(*old(q)),
        relay_items(*old(q)).len() < relay_capacity(*old(q)) ==> r is Ok && relay_items(*final(q))
            == relay_items(*old(q)).push(v),
        relay_items(*old(q)).len() == relay_capacity(*old(q)) ==> (r matches Err(w) && w == v)
            && relay_items(*final(q)) == relay_items(*old(q)),
{
    q.push_mut(v)
}

/// Relies on `ArrayQueue::force_push`: the value goes to the tail; when the
/// queue is full the oldest value is taken out and returned.
#[verifier::external_body]
fn slots_force_push(q: &mut ArrayQueue<Vec<i16>>, v: Vec<i16>) -> (r: Option<Vec<i16>>)
    requires
        relay_items(*old(q)).len() <= relay_capacity(*old(q)),
    ensures
        relay_capacity(*final(q)) == relay_capacity(*old(q)),
        relay_items(*old(q)).len() < relay_capacity(*old(q)) ==> r is None && relay_items(
            *final(q),
        ) == relay_items(*old(q)).push(v),
        relay_items(*old(q)).len() == relay_capacity(*old(q)) ==> r == Some(
            relay_items(*old(q))[0],
        ) && relay_items(*final(q)) == relay_items(*old(q)).drop_first().push(v),
{
    q.force_push(v)
}

/// Relies on `ArrayQueue::pop_mut`: the oldest value, or `None` when empty.
#[verifier::external_body]
fn slots_pop(q: &mut ArrayQueue<Vec<i16>>) -> (r: Option<Vec<i16>>)
    ensures
        relay_capacity(*final(q)) == relay_capacity(*old(q)),
        relay_items(*old(q)).len() == 0 ==> r is None && relay_items(*final(q)) == relay_items(
            *old(q),
        ),
        relay_items(*old(q)).len() > 0 ==> r == Some(relay_items(*old(q))[0]) && relay_items(
            *final(q),
        ) == relay_items(*old(q)).drop_first(),
{
    q.pop_mut()
}

/// Relies on `ArrayQueue::len`: the number of values held.
#[verifier::external_body]
fn slots_len(q: &ArrayQueue<Vec<i16>>) -> (r: usize)
    ensures
        r as nat == relay_items(*q).len(),
{
    q.len()
}

/// What a push does to a full queue.
#[derive(Clone, Copy, Debug, PartialEq, Eq, Structural)]
pub enum OverflowPolicy {
    /// Keep the queued frames and discard the new one.
    DropNewest,
    /// Discard the oldest queued frame to make room for the new one.
    EvictOldest,
}

/// The queue contents after pushing `x` onto `items` with capacity `cap`.
pub open spec fn after_push(items: Seq<Vec<i16>>, cap: nat, policy: OverflowPolicy, x: Vec<i16>) -> Seq<Vec<i16>> {
    if items.len() < cap {
        items.push(x)
    } else {
        match policy {
            OverflowPolicy::DropNewest => items,
            OverflowPolicy::EvictOldest => items.drop_first().push(x),
        }
    }
}

/// The queue contents after pushing each of `xs` in turn.
pub open spec fn push_all(items: Seq<Vec<i16>>, cap: nat, policy: OverflowPolicy, xs: Seq<Vec<i16>>) -> Seq<Vec<i16>>
    decreases xs.len(),
{
    if xs.len() == 0 {
        items
    } else {
        after_push(push_all(items, cap, policy, xs.drop_last()), cap, policy, xs.last())
    }
}

/// How many of the pushes of `xs` found the queue full, each losing one frame.
pub open spec fn lost_frames(items: Seq<Vec<i16>>, cap: nat, policy: OverflowPolicy, xs: Seq<Vec<i16>>) -> nat
    decreases xs.len(),
{
    if xs.len() == 0 {
        0
    } else {
        let before = push_all(items, cap, policy, xs.drop_last());
        lost_frames(items, cap, policy, xs.drop_last()) + if before.len() >= cap { 1nat } else { 0nat }
    }
}

/// What `n` pops in a row hand out from a queue holding `items`.
pub open spec fn pop_n(items: Seq<Vec<i16>>, n: nat) -> Seq<Vec<i16>>
    decreases n,
{
    if n == 0 || items.len() == 0 {
        Seq::empty()
    } else {
        seq![items[0]] + pop_n(items.drop_first(), (n - 1) as nat)
    }
}

/// What a full queue keeps of the frames `s` pushed into an empty queue in order.
pub open spec fn retained(s: Seq<Vec<i16>>, cap: nat, policy: OverflowPolicy) -> Seq<Vec<i16>> {
    if s.len() <= cap {
        s
    } else {
        match policy {
            OverflowPolicy::DropNewest => s.take(cap as int),
            OverflowPolicy::EvictOldest => s.skip(s.len() - cap),
        }
    }
}

/// Pushing frames one by one keeps exactly what `retained` says of all frames
/// in arrival order, never more than the capacity, and loses one frame for each
/// push that finds the queue full: as many as arrived beyond the capacity.
pub proof fn lemma_push_all(q: Seq<Vec<i16>>, cap: nat, policy: OverflowPolicy, xs: Seq<Vec<i16>>)
    requires
        0 < cap,
        q.len() <= cap,
    ensures
        push_all(q, cap, policy, xs) == retained(q + xs, cap, policy),
        push_all(q, cap, policy, xs).len() <= cap,
        lost_frames(q, cap, policy, xs) == (q + xs).len() - push_all(q, cap, policy, xs).len(),
        (q + xs).len() <= cap ==> lost_frames(q, cap, policy, xs) == 0,
        (q + xs).len() > cap ==> lost_frames(q, cap, policy, xs) == (q + xs).len() - cap,
    decreases xs.len(),
{
    if xs.len() == 0 {
        assert(q + xs =~= q);
    } else {
        let xs1 = xs.drop_last();
        let x = xs.last();
        lemma_push_all(q, cap, policy, xs1);
        let s1 = q + xs1;
        let s = q + xs;
        assert(s =~= s1.push(x));
        let before = push_all(q, cap, policy, xs1);
        if s1.len() < cap {
            assert(before == s1);
        } else {
            match policy {
                OverflowPolicy::DropNewest => {
                    assert(retained(s1, cap, policy) =~= s.take(cap as int));
                },
                OverflowPolicy::EvictOldest => {
                    assert(before =~= s1.skip(s1.len() - cap));
                    assert(before.drop_first().push(x) =~= s.skip(s.len() - cap));
                },
            }
        }
    }
}

/// `n` pops hand out the first `n` queued frames in order.
pub proof fn lemma_pop_n(items: Seq<Vec<i16>>, n: nat)
    requires
        n <= items.len(),
    ensures
        pop_n(items, n) == items.take(n as int),
    decreases n,
{
    if n > 0 {
        lemma_pop_n(items.drop_first(), (n - 1) as nat);
        assert(pop_n(items, n) =~= items.take(n as int));
    } else {
        assert(items.take(0) =~= Seq::<Vec<i16>>::empty());
    }
}

/// Pushing at most `cap` frames into an empty queue and then popping as many
/// times gives back the same frames in the same order, none lost.
pub proof fn lemma_fifo_under_capacity(cap: nat, policy: OverflowPolicy, xs: Seq<Vec<i16>>)
    requires
        0 < cap,
        xs.len() <= cap,
    ensures
        push_all(Seq::empty(), cap, policy, xs) == xs,
        lost_frames(Seq::empty(), cap, policy, xs) == 0,
        pop_n(push_all(Seq::empty(), cap, policy, xs), xs.len()) == xs,
{
    lemma_push_all(Seq::empty(), cap, policy, xs);
    assert(Seq::<Vec<i16>>::empty() + xs =~= xs);
    lemma_pop_n(xs, xs.len());
    assert(xs.take(xs.len() as int) =~= xs);
}

/// Pushing `cap + 1` frames into an empty queue loses exactly one frame (the
/// last under `DropNewest`, the first under `EvictOldest`) and leaves `cap`.
pub proof fn lemma_overflow_loses_one(cap: nat, policy: OverflowPolicy, xs: Seq<Vec<i16>>)
    requires
        0 < cap,
        xs.len() == cap + 1,
    ensures
        lost_frames(Seq::empty(), cap, policy, xs) == 1,
        push_all(Seq::empty(), cap, policy, xs).len() == cap,
        policy == OverflowPolicy::DropNewest ==> push_all(Seq::empty(), cap, policy, xs)
            == xs.drop_last(),
        policy == OverflowPolicy::EvictOldest ==> push_all(Seq::empty(), cap, policy, xs)
            == xs.drop_first(),
{
    lemma_push_all(Seq::empty(), cap, policy, xs);
    assert(Seq::<Vec<i16>>::empty() + xs =~= xs);
    assert(xs.take(cap as int) =~= xs.drop_last());
    assert(xs.skip(1) =~= xs.drop_first());
}

/// Overrunning an empty queue with `xs` (more frames than it holds) and then
/// popping `cap` times hands out, in arrival order, the first `cap` frames under
/// `DropNewest` and the last `cap` under `EvictOldest`; the rest are lost.
pub proof fn lemma_overrun_then_drain(cap: nat, policy: OverflowPolicy, xs: Seq<Vec<i16>>)
    requires
        0 < cap,
        xs.len() > cap,
    ensures
        lost_frames(Seq::empty(), cap, policy, xs) == xs.len() - cap,
        policy == OverflowPolicy::DropNewest ==> pop_n(push_all(Seq::empty(), cap, policy, xs), cap)
            == xs.take(cap as int),
        policy == OverflowPolicy::EvictOldest ==> pop_n(push_all(Seq::empty(), cap, policy, xs), cap)
            == xs.skip(xs.len() - cap),
{
    lemma_push_all(Seq::empty(), cap, policy, xs);
    assert(Seq::<Vec<i16>>::empty() + xs =~= xs);
    let kept = push_all(Seq::empty(), cap, policy, xs);
    lemma_pop_n(kept, cap);
    assert(kept.take(cap as int) =~= kept);
}

/// A bounded single-producer single-consumer queue of frames of one length.
pub struct RelayQueue {
    slots: ArrayQueue<Vec<i16>>,
    cap: usize,
    frame_len: usize,
    policy: OverflowPolicy,
}

impl RelayQueue {
    /// The queued frames, oldest first.
    pub closed spec fn items(&self) -> Seq<Vec<i16>> {
        relay_items(self.slots)
    }

    /// The fixed capacity.
    pub closed spec fn capacity_spec(&self) -> nat {
        self.cap as nat
    }

    /// The length every queued frame has.
    pub closed spec fn frame_len_spec(&self) -> nat {
        self.frame_len as nat
    }

    /// The policy applied on a full queue.
    pub closed spec fn policy_spec(&self) -> OverflowPolicy {
        self.policy
    }

    /// Capacity positive and respected; every queued frame has the frame length.
    pub closed spec fn wf(&self) -> bool {
        &&& 0 < self.cap <= MAX_CAPACITY
        &&& relay_capacity(self.slots) == self.cap as nat
        &&& relay_items(self.slots).len() <= self.cap
        &&& forall|i: int|
            0 <= i < relay_items(self.slots).len() ==> (#[trigger] relay_items(self.slots)[i])@.len()
                == self.frame_len
    }

    /// Every queued frame has the frame length.
    pub proof fn lemma_frame_lengths(&self)
        requires
            self.wf(),
        ensures
            forall|i: int| 0 <= i < self.items().len() ==> (#[trigger] self.items()[i])@.len()
                == self.frame_len_spec(),
            self.items().len() <= self.capacity_spec(),
    {
    }

    /// An empty queue of `capacity` frames of `frame_len` samples each.
    pub fn new(capacity: usize, frame_len: usize, policy: OverflowPolicy) -> (q: RelayQueue)
        requires
            0 < capacity <= MAX_CAPACITY,
        ensures
            q.wf(),
            q.items() == Seq::<Vec<i16>>::empty(),
            q.capacity_spec() == capacity as nat,
            q.frame_len_spec() == frame_len as nat,
            q.policy_spec() == policy,
    {
        RelayQueue { slots: slots_new(capacity), cap: capacity, frame_len, policy }
    }

    /// Offers a frame without blocking. On a full queue the policy decides:
    /// the frame is discarded (and `false` returned), or the oldest frame is
    /// evicted to make room.
    pub fn push(&mut self, frame: Vec<i16>) -> (r: bool)
        requires
            old(self).wf(),
            frame@.len() == old(self).frame_len_spec(),
        ensures
            final(self).wf(),
            final(self).capacity_spec() == old(self).capacity_spec(),
            final(self).frame_len_spec() == old(self).frame_len_spec(),
            final(self).policy_spec() == old(self).policy_spec(),
            final(self).items() == after_push(
                old(self).items(),
                old(self).capacity_spec(),
                old(self).policy_spec(),
                frame,
            ),
            r == (old(self).items().len() < old(self).capacity_spec() || old(self).policy_spec()
                == OverflowPolicy::EvictOldest),
    {
        let ghost before = relay_items(self.slots);
        match self.policy {
            OverflowPolicy::DropNewest => {
                let res = slots_push(&mut self.slots, frame);
                proof {
                    let after = relay_items(self.slots);
                    assert forall|i: int| 0 <= i < after.len() implies (#[trigger] after[i])@.len()
                        == self.frame_len by {
                        if i < before.len() {
                            assert(after[i] == before[i]);
                        }
                    }
                }
                res.is_ok()
            },
            OverflowPolicy::EvictOldest => {
                let _evicted = slots_force_push(&mut self.slots, frame);
                proof {
                    let after = relay_items(self.slots);
                    assert forall|i: int| 0 <= i < after.len() implies (#[trigger] after[i])@.len()
                        == self.frame_len by {
                        if before.len() < self.cap {
                            if i < before.len() {
                                assert(after[i] == before[i]);
                            }
                        } else if i < before.len() - 1 {
                            assert(after[i] == before[i + 1]);
                        }
                    }
                }
                true
            },
        }
    }

    /// Takes the oldest frame without blocking; `None` when the queue is empty.
    pub fn pop(&mut self) -> (r: Option<Vec<i16>>)
        requires
            old(self).wf(),
        ensures
            final(self).wf(),
            final(self).capacity_spec() == old(self).capacity_spec(),
            final(self).frame_len_spec() == old(self).frame_len_spec(),
            final(self).policy_spec() == old(self).policy_spec(),
            old(self).items().len() == 0 ==> r is None && final(self).items() == old(self).items(),
            old(self).items().len() > 0 ==> r == Some(old(self).items()[0]) && final(self).items()
                == old(self).items().drop_first(),
            r matches Some(f) ==> f@.len() == old(self).frame_len_spec(),
    {
        let ghost before = relay_items(self.slots);
        let r = slots_pop(&mut self.slots);
        proof {
            let after = relay_items(self.slots);
            assert forall|i: int| 0 <= i < after.len() implies (#[trigger] after[i])@.len()
                == self.frame_len by {
                assert(after[i] == before[i + 1]);
            }
            if before.len() > 0 {
                assert(before[0]@.len() == self.frame_len);
            }
        }
        r
    }

    /// Number of queued frames.
    pub fn len(&self) -> (r: usize)
        requires
            self.wf(),
        ensures
            r as nat == self.items().len(),
    {
        slots_len(&self.slots)
    }

    /// Whether no frame is queued.
    pub fn is_empty(&self) -> (r: bool)
        requires
            self.wf(),
        ensures
            r == (self.items().len() == 0),
    {
        self.len() == 0
    }

    /// The fixed capacity.
    pub fn capacity(&self) -> (r: usize)
        ensures
            r as nat == self.capacity_spec(),
    {
        self.cap
    }

    /// The length every queued frame has.
    pub fn frame_len(&self) -> (r: usize)
        ensures
            r as nat == self.frame_len_spec(),
    {
        self.frame_len
    }

    /// The policy applied on a full queue.
    pub fn policy(&self) -> (r: OverflowPolicy)
        ensures
            r == self.policy_spec(),
    {
        self.policy
    }
}

} // verus!
