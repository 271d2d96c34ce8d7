//! The barrier that waits for a material's texture arrays to finish loading.
//!
//! Each slot awaits one texture identity; several slots may await the same
//! texture. A completion event marks every slot that awaits its identity. Once
//! every slot is loaded the barrier is `Ready`, and the construction that
//! depends on the textures may be triggered once, which leaves it `Spawned`.
use vstd::prelude::*;
use crate::material::TextureId;

verus! {

/// One awaited texture.
#[derive(Clone, Copy, Debug, PartialEq, Eq, Structural)]
pub struct LoadingSlot {
    pub expected: TextureId,
    pub loaded: bool,
}

/// Where a barrier stands.
#[derive(Clone, Copy, Debug, PartialEq, Eq, Structural)]
pub enum BarrierState {
    /// Some slot still awaits its texture.
    Pending,
    /// Every slot is loaded; the dependent construction has not run yet.
    Ready,
    /// Every slot is loaded and the dependent construction was triggered.
    Spawned,
}

/// A barrier over a fixed list of slots.
pub struct LoadBarrier {
    slots: Vec<LoadingSlot>,
    state: BarrierState,
}

/// What the caller does after one batch of completion events.
#[derive(Clone, Debug)]
pub struct Tick {
    /// The events of the batch that some slot awaited, in arrival order: the
    /// textures whose sampler the caller sets up.
    pub reconfigure: Vec<TextureId>,
    /// Whether the caller now runs the dependent construction.
    pub spawn: bool,
}

pub open spec fn all_slots_loaded(slots: Seq<LoadingSlot>) -> bool {
    forall|i: int| 0 <= i < slots.len() ==> (#[trigger] slots[i]).loaded
}

/// Whether some slot awaits texture `id`.
pub open spec fn is_awaited(slots: Seq<LoadingSlot>, id: TextureId) -> bool {
    exists|i: int| 0 <= i < slots.len() && (#[trigger] slots[i]).expected == id
}

/// The events of `ids` that some slot awaits, in order.
pub open spec fn awaited_events(slots: Seq<LoadingSlot>, ids: Seq<TextureId>) -> Seq<TextureId> {
    ids.filter(|id: TextureId| is_awaited(slots, id))
}

/// The slots after the events `ids`: a slot is loaded when it was, or when one
/// of the events carries the identity it awaits.
pub open spec fn mark_loaded(slots: Seq<LoadingSlot>, ids: Seq<TextureId>) -> Seq<LoadingSlot> {
    Seq::new(
        slots.len(),
        |i: int|
            LoadingSlot {
                expected: slots[i].expected,
                loaded: slots[i].loaded || ids.contains(slots[i].expected),
            },
    )
}

/// The state after the slots were updated to `slots`: a pending barrier whose
/// slots are all loaded becomes ready; any other state stays.
pub open spec fn state_after_update(s: BarrierState, slots: Seq<LoadingSlot>) -> BarrierState {
    if s is Pending && all_slots_loaded(slots) {
        BarrierState::Ready
    } else {
        s
    }
}

/// The state after a request to spawn: only a ready barrier moves.
pub open spec fn state_after_spawn(s: BarrierState) -> BarrierState {
    if s is Ready {
        BarrierState::Spawned
    } else {
        s
    }
}

/// Slots and state agree: pending exactly while some slot is not loaded.
pub open spec fn state_fits(slots: Seq<LoadingSlot>, s: BarrierState) -> bool {
    (s is Pending) == !all_slots_loaded(slots)
}

/// Slots and state after one completion event for `id`.
pub open spec fn after_event(
    slots: Seq<LoadingSlot>,
    s: BarrierState,
    id: TextureId,
) -> (Seq<LoadingSlot>, BarrierState) {
    (mark_loaded(slots, seq![id]), state_after_update(s, mark_loaded(slots, seq![id])))
}

/// Slots and state after the completion events `ids`, delivered one by one in
/// order.
pub open spec fn after_events(
    slots: Seq<LoadingSlot>,
    s: BarrierState,
    ids: Seq<TextureId>,
) -> (Seq<LoadingSlot>, BarrierState)
    decreases ids.len(),
{
    if ids.len() == 0 {
        (slots, s)
    } else {
        let prev = after_events(slots, s, ids.drop_last());
        after_event(prev.0, prev.1, ids.last())
    }
}

proof fn lemma_mark_keeps_loaded(slots: Seq<LoadingSlot>, ids: Seq<TextureId>)
    ensures
        all_slots_loaded(slots) ==> all_slots_loaded(mark_loaded(slots, ids)),
{
    if all_slots_loaded(slots) {
        assert forall|i: int| 0 <= i < mark_loaded(slots, ids).len() implies (#[trigger] mark_loaded(
            slots,
            ids,
        )[i]).loaded by {
            assert(slots[i].loaded);
        }
    }
}

proof fn lemma_mark_concat(slots: Seq<LoadingSlot>, a: Seq<TextureId>, b: Seq<TextureId>)
    ensures
        mark_loaded(mark_loaded(slots, a), b) == mark_loaded(slots, a + b),
{
    assert forall|x: TextureId| #[trigger] (a + b).contains(x) == (a.contains(x) || b.contains(x)) by {
        vstd::seq_lib::lemma_seq_concat_contains_all_elements(a, b, x);
        if (a + b).contains(x) {
            let k = choose|k: int| 0 <= k < (a + b).len() && (a + b)[k] == x;
            if k < a.len() {
                assert(a[k] == x);
            } else {
                assert(b[k - a.len()] == x);
            }
        }
    }
    assert(mark_loaded(mark_loaded(slots, a), b) =~= mark_loaded(slots, a + b));
}

proof fn lemma_awaited_events_push(slots: Seq<LoadingSlot>, ids: Seq<TextureId>, x: TextureId)
    ensures
        awaited_events(slots, ids.push(x)) == (if is_awaited(slots, x) {
            awaited_events(slots, ids).push(x)
        } else {
            awaited_events(slots, ids)
        }),
{
    reveal(Seq::filter);
    assert(ids.push(x).drop_last() =~= ids);
}

proof fn lemma_mark_keeps_awaited(slots: Seq<LoadingSlot>, ids: Seq<TextureId>, x: TextureId)
    ensures
        is_awaited(mark_loaded(slots, ids), x) == is_awaited(slots, x),
{
    if is_awaited(slots, x) {
        let k = choose|k: int| 0 <= k < slots.len() && (#[trigger] slots[k]).expected == x;
        assert(mark_loaded(slots, ids)[k].expected == x);
    }
    if is_awaited(mark_loaded(slots, ids), x) {
        let k = choose|k: int|
            0 <= k < mark_loaded(slots, ids).len() && (#[trigger] mark_loaded(slots, ids)[k]).expected
                == x;
        assert(slots[k].expected == x);
    }
}

/// Delivering the same completion event a second time changes nothing more
/// than the first delivery did.
pub proof fn lemma_duplicate_event_is_noop(slots: Seq<LoadingSlot>, s: BarrierState, id: TextureId)
    ensures
        after_event(after_event(slots, s, id).0, after_event(slots, s, id).1, id) == after_event(
            slots,
            s,
            id,
        ),
{
    lemma_mark_concat(slots, seq![id], seq![id]);
    assert forall|x: TextureId| #[trigger] (seq![id] + seq![id]).contains(x) == seq![id].contains(x) by {
        if x == id {
            assert(seq![id][0] == x);
            assert((seq![id] + seq![id])[0] == x);
        }
    }
    assert(mark_loaded(slots, seq![id] + seq![id]) =~= mark_loaded(slots, seq![id]));
}

/// Delivering events one by one ends where marking all of them at once does:
/// every slot whose identity occurs among the events is loaded, and a pending
/// barrier is ready exactly when no slot is left.
pub proof fn lemma_events_mark_their_slots(
    slots: Seq<LoadingSlot>,
    s: BarrierState,
    ids: Seq<TextureId>,
)
    requires
        state_fits(slots, s),
    ensures
        after_events(slots, s, ids) == (
            mark_loaded(slots, ids),
            state_after_update(s, mark_loaded(slots, ids)),
        ),
    decreases ids.len(),
{
    if ids.len() == 0 {
        assert(mark_loaded(slots, ids) =~= slots);
    } else {
        let prefix = ids.drop_last();
        lemma_events_mark_their_slots(slots, s, prefix);
        lemma_mark_concat(slots, prefix, seq![ids.last()]);
        assert(prefix + seq![ids.last()] =~= ids);
        lemma_mark_keeps_loaded(mark_loaded(slots, prefix), seq![ids.last()]);
    }
}

/// The outcome of a batch of events depends only on which identities occur
/// in it, not on their order or on repetitions.
pub proof fn lemma_arrival_order_irrelevant(
    slots: Seq<LoadingSlot>,
    s: BarrierState,
    a: Seq<TextureId>,
    b: Seq<TextureId>,
)
    requires
        state_fits(slots, s),
        forall|x: TextureId| a.contains(x) == b.contains(x),
    ensures
        after_events(slots, s, a) == after_events(slots, s, b),
{
    lemma_events_mark_their_slots(slots, s, a);
    lemma_events_mark_their_slots(slots, s, b);
    assert(mark_loaded(slots, a) =~= mark_loaded(slots, b));
}

/// Once an event for every awaited identity has arrived, in any order and
/// with any repetitions, every slot is loaded and the barrier is no longer
/// pending.
pub proof fn lemma_all_identities_load_all(
    slots: Seq<LoadingSlot>,
    s: BarrierState,
    ids: Seq<TextureId>,
)
    requires
        state_fits(slots, s),
        forall|i: int| 0 <= i < slots.len() ==> ids.contains(#[trigger] slots[i].expected),
    ensures
        all_slots_loaded(after_events(slots, s, ids).0),
        !(after_events(slots, s, ids).1 is Pending),
{
    lemma_events_mark_their_slots(slots, s, ids);
    assert forall|i: int| 0 <= i < mark_loaded(slots, ids).len() implies (#[trigger] mark_loaded(
        slots,
        ids,
    )[i]).loaded by {
        assert(ids.contains(slots[i].expected));
    }
}

/// A barrier that is ready or spawned keeps its state through any events, so
/// it never returns to pending; a spawn request moves only a ready barrier,
/// and a second request changes nothing.
pub proof fn lemma_spawn_is_one_shot(slots: Seq<LoadingSlot>, s: BarrierState, ids: Seq<TextureId>)
    ensures
        !(s is Pending) ==> after_events(slots, s, ids).1 == s,
        !(s is Ready) ==> state_after_spawn(s) == s,
        state_after_spawn(state_after_spawn(s)) == state_after_spawn(s),
        state_after_spawn(s) is Spawned ==> after_events(
            slots,
            state_after_spawn(s),
            ids,
        ).1 is Spawned,
    decreases ids.len(),
{
    if ids.len() > 0 {
        lemma_spawn_is_one_shot(slots, s, ids.drop_last());
        lemma_spawn_is_one_shot(slots, state_after_spawn(s), ids.drop_last());
    }
}

impl LoadBarrier {
    /// The slots, in the order they were given.
    pub closed spec fn slots(&self) -> Seq<LoadingSlot> {
        self.slots@
    }

    pub closed spec fn barrier_state(&self) -> BarrierState {
        self.state
    }

    pub open spec fn wf(&self) -> bool {
        state_fits(self.slots(), self.barrier_state())
    }

    /// A barrier awaiting each texture of `expected`, none loaded yet. It is
    /// pending, unless it awaits nothing.
    pub fn new(expected: &Vec<TextureId>) -> (r: Self)
        ensures
            r.wf(),
            r.slots() == Seq::new(
                expected@.len(),
                |i: int| LoadingSlot { expected: expected@[i], loaded: false },
            ),
            r.barrier_state() == (if expected@.len() == 0 {
                BarrierState::Ready
            } else {
                BarrierState::Pending
            }),
    {
        let mut slots: Vec<LoadingSlot> = Vec::new();
        let mut i: usize = 0;
        while i < expected.len()
            invariant
                i <= expected@.len(),
                slots@ == Seq::new(
                    i as nat,
                    |j: int| LoadingSlot { expected: expected@[j], loaded: false },
                ),
            decreases expected@.len() - i,
        {
            slots.push(LoadingSlot { expected: expected[i], loaded: false });
            i += 1;
            proof {
                assert(slots@ =~= Seq::new(
                    i as nat,
                    |j: int| LoadingSlot { expected: expected@[j], loaded: false },
                ));
            }
        }
        let state = if expected.len() == 0 {
            BarrierState::Ready
        } else {
            assert(!slots@[0].loaded);
            BarrierState::Pending
        };
        LoadBarrier { slots, state }
    }

    /// Where the barrier stands.
    pub fn state(&self) -> (r: BarrierState)
        ensures
            r == self.barrier_state(),
    {
        self.state
    }

    /// Whether every slot is loaded.
    pub fn all_loaded(&self) -> (r: bool)
        ensures
            r == all_slots_loaded(self.slots()),
    {
        let mut i: usize = 0;
        while i < self.slots.len()
            invariant
                i <= self.slots@.len(),
                forall|j: int| 0 <= j < i ==> (#[trigger] self.slots@[j]).loaded,
            decreases self.slots@.len() - i,
        {
            if !self.slots[i].loaded {
                return false;
            }
            i += 1;
        }
        true
    }

    /// Records a completion event for texture `id`: every slot that awaits
    /// `id` is marked loaded, not only the first. Returns whether any slot
    /// awaits `id`.
    pub fn check_loaded(&mut self, id: &TextureId) -> (r: bool)
        requires
            old(self).wf(),
        ensures
            final(self).wf(),
            (final(self).slots(), final(self).barrier_state()) == after_event(
                old(self).slots(),
                old(self).barrier_state(),
                *id,
            ),
            r == is_awaited(old(self).slots(), *id),
    {
        let ghost old_slots = self.slots@;
        let mut any_loaded = false;
        let mut i: usize = 0;
        while i < self.slots.len()
            invariant
                i <= self.slots@.len(),
                self.slots@.len() == old_slots.len(),
                self.state == old(self).state,
                forall|j: int|
                    0 <= j < i ==> #[trigger] self.slots@[j] == mark_loaded(old_slots, seq![*id])[j],
                forall|j: int| i <= j < self.slots@.len() ==> #[trigger] self.slots@[j] == old_slots[j],
                any_loaded == exists|j: int| 0 <= j < i && (#[trigger] old_slots[j]).expected == *id,
            decreases self.slots@.len() - i,
        {
            assert(seq![*id].contains(*id) || seq![*id][0] == *id);
            if self.slots[i].expected == *id {
                let expected = self.slots[i].expected;
                self.slots.set(i, LoadingSlot { expected, loaded: true });
                any_loaded = true;
            } else {
                assert(!seq![*id].contains(old_slots[i as int].expected));
            }
            i += 1;
        }
        assert(self.slots@ =~= mark_loaded(old_slots, seq![*id]));
        proof {
            lemma_mark_keeps_loaded(old_slots, seq![*id]);
        }
        if self.state == BarrierState::Pending && self.all_loaded() {
            self.state = BarrierState::Ready;
        }
        any_loaded
    }

    /// Records that the dependent construction was triggered. Only a ready
    /// barrier moves (to `Spawned`, returning `true`); in any other state this
    /// does nothing and returns `false`.
    pub fn mark_spawned(&mut self) -> (r: bool)
        requires
            old(self).wf(),
        ensures
            final(self).wf(),
            final(self).slots() == old(self).slots(),
            final(self).barrier_state() == state_after_spawn(old(self).barrier_state()),
            r == old(self).barrier_state() is Ready,
    {
        if self.state == BarrierState::Ready {
            self.state = BarrierState::Spawned;
            true
        } else {
            false
        }
    }

    /// Handles one batch of completion events, as the caller's per-tick loop
    /// does: every event is recorded against every slot (see `check_loaded`),
    /// the events that some slot awaited are handed back for their sampler to
    /// be set up, and the dependent construction is requested as soon as every
    /// slot is loaded. Once spawned, the barrier ignores further batches.
    pub fn poll(&mut self, loaded: &Vec<TextureId>) -> (r: Tick)
        requires
            old(self).wf(),
        ensures
            final(self).wf(),
            old(self).barrier_state() is Spawned ==> final(self).slots() == old(self).slots()
                && final(self).barrier_state() is Spawned && r.reconfigure@.len() == 0
                && !r.spawn,
            !(old(self).barrier_state() is Spawned) ==> final(self).slots() == mark_loaded(
                old(self).slots(),
                loaded@,
            ) && r.reconfigure@ == awaited_events(old(self).slots(), loaded@)
                && r.spawn == all_slots_loaded(final(self).slots()) && final(self).barrier_state()
                == (if r.spawn {
                BarrierState::Spawned
            } else {
                BarrierState::Pending
            }),
    {
        let mut reconfigure: Vec<TextureId> = Vec::new();
        if self.state == BarrierState::Spawned {
            return Tick { reconfigure, spawn: false };
        }
        let ghost old_slots = self.slots@;
        proof {
            assert(mark_loaded(old_slots, loaded@.subrange(0, 0)) =~= old_slots);
            assert(awaited_events(old_slots, loaded@.subrange(0, 0)) =~= Seq::<TextureId>::empty())
                by {
                reveal(Seq::filter);
            }
        }
        let mut i: usize = 0;
        while i < loaded.len()
            invariant
                i <= loaded@.len(),
                self.wf(),
                !(self.barrier_state() is Spawned),
                self.slots() == mark_loaded(old_slots, loaded@.subrange(0, i as int)),
                reconfigure@ == awaited_events(old_slots, loaded@.subrange(0, i as int)),
            decreases loaded@.len() - i,
        {
            proof {
                lemma_mark_keeps_awaited(old_slots, loaded@.subrange(0, i as int), loaded@[i as int]);
            }
            let matched = self.check_loaded(&loaded[i]);
            if matched {
                reconfigure.push(loaded[i]);
            }
            proof {
                let sub = loaded@.subrange(0, i + 1);
                assert(sub =~= loaded@.subrange(0, i as int).push(loaded@[i as int]));
                assert(sub =~= loaded@.subrange(0, i as int) + seq![loaded@[i as int]]);
                lemma_mark_concat(old_slots, loaded@.subrange(0, i as int), seq![loaded@[i as int]]);
                lemma_awaited_events_push(old_slots, loaded@.subrange(0, i as int), loaded@[i as int]);
            }
            i += 1;
        }
        proof {
            assert(loaded@.subrange(0, loaded@.len() as int) =~= loaded@);
        }
        let spawn = self.mark_spawned();
        Tick { reconfigure, spawn }
    }
}

} // verus!
