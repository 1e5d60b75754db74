use vstd::prelude::*;

use std::collections::VecDeque;

use crate::canvas::action::{
    apply_all, apply_model, duplicate_action, law_undo_reverts_apply, records, same_action, undo_all, undo_model,
    ChalkAction,
};
use crate::canvas::primitives::{doc_model, duplicate_doc, Primitive, PrimitiveModel};

verus! {

broadcast use vstd::std_specs::vecdeque::group_vec_dequeue_axioms;

/// A linear history of actions with a cursor: the actions before the cursor
/// are applied to the document, those from the cursor on have been undone
/// and can be redone.
#[derive(Debug)]
pub struct History<N> {
    /// Linear history of actions
    actions: VecDeque<ChalkAction<N>>,
    /// How many actions are "active"
    cursor: usize,
    /// Capacity of the history; when exceeded, oldest actions are dropped
    capacity: usize,
}

/// How many of the oldest applied actions `apply` drops so that, with the
/// new action, at most `capacity` are kept: none while there is room, else
/// enough to leave `capacity - 1` (all of them for a capacity of 0).
pub open spec fn dropped_for(kept_len: nat, capacity: nat) -> nat {
    if capacity == 0 {
        kept_len
    } else if kept_len >= capacity {
        (kept_len + 1 - capacity) as nat
    } else {
        0
    }
}

/// The actions and cursor left when a new action is recorded by `apply`:
/// the undone actions after the cursor are dropped, then the oldest ones
/// while the history is at capacity; the new action is pushed and becomes
/// the last applied one.
pub open spec fn after_apply<A>(acts: Seq<A>, cursor: nat, capacity: nat, action: A) -> (Seq<A>, nat) {
    let kept = acts.take(cursor as int);
    let k = dropped_for(kept.len(), capacity);
    (kept.skip(k as int).push(action), (kept.len() - k + 1) as nat)
}

/// The actions and cursor left when an already applied action is recorded
/// by `push_without_apply`: the undone actions after the cursor are dropped,
/// then the oldest one if the history is exactly at capacity; the new action
/// is pushed and becomes the last applied one.
pub open spec fn after_push<A>(acts: Seq<A>, cursor: nat, capacity: nat, action: A) -> (Seq<A>, nat) {
    let kept = acts.take(cursor as int);
    if kept.len() == capacity && kept.len() > 0 {
        (kept.skip(1).push(action), cursor)
    } else {
        (kept.push(action), cursor + 1)
    }
}

/// Recording a new action with `apply` leaves nothing to redo: the new
/// action is the last one kept and the cursor stands just after it.
pub proof fn law_apply_discards_redo<A>(acts: Seq<A>, cursor: nat, capacity: nat, action: A)
    requires
        cursor <= acts.len(),
    ensures
        ({
            let (kept, c) = after_apply(acts, cursor, capacity, action);
            &&& c == kept.len()
            &&& c > 0
            &&& kept[c - 1] == action
        }),
{
}

/// Recording an already applied action drops at most one earlier action,
/// the oldest: below the capacity every applied action is kept, in order;
/// at the capacity all of them but the oldest, in order; either way the new
/// action follows them and the cursor stands after it.
pub proof fn law_push_keeps_history<A>(acts: Seq<A>, cursor: nat, capacity: nat, action: A)
    requires
        cursor <= acts.len(),
    ensures
        ({
            let (kept, c) = after_push(acts, cursor, capacity, action);
            &&& c == kept.len()
            &&& kept.last() == action
            &&& (cursor != capacity || capacity == 0) ==> kept.drop_last() == acts.take(cursor as int)
            &&& (cursor == capacity && capacity > 0) ==> {
                &&& kept.len() == capacity
                &&& forall|i: int| 0 <= i < capacity - 1 ==> #[trigger] kept[i] == acts[i + 1]
            }
            &&& kept.len() >= cursor
        }),
{
    let (kept, c) = after_push(acts, cursor, capacity, action);
    if cursor == capacity && capacity > 0 {
        assert forall|i: int| 0 <= i < capacity - 1 implies #[trigger] kept[i] == acts[i + 1] by {
            assert(kept[i] == acts.take(cursor as int).skip(1)[i]);
        }
    } else {
        assert(kept.drop_last() =~= acts.take(cursor as int));
    }
}

/// `apply` keeps the newest applied actions, as many as fit beside the new
/// one: with a capacity, `min(cursor, capacity - 1)` of them, in order, and
/// then the new action.
pub proof fn law_apply_keeps_newest<A>(acts: Seq<A>, cursor: nat, capacity: nat, action: A)
    requires
        cursor <= acts.len(),
        capacity > 0,
    ensures
        ({
            let (kept, c) = after_apply(acts, cursor, capacity, action);
            let n: int = if cursor < capacity { cursor as int } else { capacity - 1 };
            &&& c == kept.len()
            &&& kept.len() == n + 1
            &&& kept.last() == action
            &&& forall|i: int| 0 <= i < n ==> #[trigger] kept[i] == acts[cursor - n + i]
        }),
{
    let (kept, c) = after_apply(acts, cursor, capacity, action);
    let n: int = if cursor < capacity { cursor as int } else { capacity - 1 };
    assert forall|i: int| 0 <= i < n implies #[trigger] kept[i] == acts[cursor - n + i] by {
        assert(kept[i] == acts.take(cursor as int).skip(cursor - n)[i]);
    }
}

/// Recording an action with `push_without_apply` leaves nothing to redo:
/// the new action is the last one kept and the cursor stands just after it.
pub proof fn law_push_discards_redo<A>(acts: Seq<A>, cursor: nat, capacity: nat, action: A)
    requires
        cursor <= acts.len(),
    ensures
        ({
            let (kept, c) = after_push(acts, cursor, capacity, action);
            &&& c == kept.len()
            &&& c > 0
            &&& kept[c - 1] == action
        }),
{
}

/// `apply` never keeps more actions than the capacity (when it is not 0),
/// and the actions it keeps from before are a run of consecutive earlier
/// ones, in order.
pub proof fn law_apply_bounds_history<A>(acts: Seq<A>, cursor: nat, capacity: nat, action: A)
    requires
        cursor <= acts.len(),
    ensures
        ({
            let (kept, c) = after_apply(acts, cursor, capacity, action);
            &&& capacity > 0 ==> kept.len() <= capacity
            &&& exists|k: int| 0 <= k <= acts.len() && kept.drop_last() == #[trigger] acts.skip(k).take(kept.len() - 1)
        }),
{
    let k: int = dropped_for(cursor, capacity) as int;
    let (kept, c) = after_apply(acts, cursor, capacity, action);
    assert(kept.drop_last() =~= acts.skip(k).take(kept.len() - 1));
}

/// Undo right after apply: when the recorded action records the document it
/// is applied to, undoing the action that `apply` recorded (the one just
/// before the new cursor) gives the document back.
pub proof fn law_undo_after_apply<N>(
    acts: Seq<ChalkAction<N>>,
    cursor: nat,
    capacity: nat,
    doc: Seq<PrimitiveModel<N>>,
    action: ChalkAction<N>,
)
    requires
        cursor <= acts.len(),
        records(doc, action),
    ensures
        ({
            let (kept, c) = after_apply(acts, cursor, capacity, action);
            &&& apply_model(doc, action) is Some
            &&& c > 0
            &&& undo_model(apply_model(doc, action)->0, kept[c - 1]) == Some(doc)
        }),
{
    law_undo_reverts_apply(doc, action);
}

/// Redo right after undo: when the undone action records the document it
/// was applied to, redoing it (it is the action at the new cursor) gives back
/// the document as it was before the undo, and the cursor where it was.
pub proof fn law_redo_after_undo<N>(
    acts: Seq<ChalkAction<N>>,
    cursor: nat,
    before: Seq<PrimitiveModel<N>>,
)
    requires
        0 < cursor <= acts.len(),
        records(before, acts[cursor - 1]),
    ensures
        ({
            let doc = apply_model(before, acts[cursor - 1])->0;
            let undone = undo_model(doc, acts[cursor - 1]);
            &&& undone == Some(before)
            &&& (cursor - 1) < acts.len()
            &&& apply_model(undone->0, acts[(cursor - 1) as int]) == Some(doc)
        }),
{
    law_undo_reverts_apply(before, acts[cursor - 1]);
}

/// A chain of documents that a sequence of actions walks through: each action
/// records the document before it and turns it into the next one.
pub open spec fn chain_ok<N>(acts: Seq<ChalkAction<N>>, chain: Seq<Seq<PrimitiveModel<N>>>) -> bool {
    &&& chain.len() == acts.len() + 1
    &&& forall|i: int|
        #![trigger acts[i]]
        0 <= i < acts.len() ==> records(chain[i], acts[i]) && apply_model(chain[i], acts[i]) == Some(
            chain[i + 1],
        )
}

/// A history tracks a document when the document is where the recorded
/// actions lead up to the cursor: there are documents between the actions
/// such that each action records the one before it and yields the one after.
pub open spec fn tracks<N>(acts: Seq<ChalkAction<N>>, cursor: nat, doc: Seq<PrimitiveModel<N>>) -> bool {
    exists|chain: Seq<Seq<PrimitiveModel<N>>>| chain_ok(acts, chain) && chain[cursor as int] == doc
}

/// An empty history tracks any document.
pub proof fn law_empty_history_tracks<N>(doc: Seq<PrimitiveModel<N>>)
    ensures
        tracks(Seq::<ChalkAction<N>>::empty(), 0, doc),
{
    let chain = seq![doc];
    assert(chain_ok(Seq::<ChalkAction<N>>::empty(), chain));
}

/// In a history that tracks the document, undo always succeeds: it gives the
/// document before the last applied action, and the history, one step back,
/// still tracks it.
pub proof fn law_tracked_undo<N>(acts: Seq<ChalkAction<N>>, cursor: nat, doc: Seq<PrimitiveModel<N>>)
    requires
        tracks(acts, cursor, doc),
        0 < cursor <= acts.len(),
    ensures
        undo_model(doc, acts[cursor - 1]) is Some,
        tracks(acts, (cursor - 1) as nat, undo_model(doc, acts[cursor - 1])->0),
{
    let chain = choose|chain: Seq<Seq<PrimitiveModel<N>>>| chain_ok(acts, chain) && chain[cursor as int] == doc;
    let i = cursor - 1;
    assert(records(chain[i], acts[i]) && apply_model(chain[i], acts[i]) == Some(chain[i + 1]));
    law_undo_reverts_apply(chain[i], acts[i]);
    assert(chain_ok(acts, chain) && chain[(cursor - 1) as int] == undo_model(doc, acts[cursor - 1])->0);
}

/// In a history that tracks the document, redo always succeeds: it gives the
/// document after the first undone action, and the history, one step on,
/// still tracks it.
pub proof fn law_tracked_redo<N>(acts: Seq<ChalkAction<N>>, cursor: nat, doc: Seq<PrimitiveModel<N>>)
    requires
        tracks(acts, cursor, doc),
        cursor < acts.len(),
    ensures
        apply_model(doc, acts[cursor as int]) is Some,
        tracks(acts, cursor + 1, apply_model(doc, acts[cursor as int])->0),
{
    let chain = choose|chain: Seq<Seq<PrimitiveModel<N>>>| chain_ok(acts, chain) && chain[cursor as int] == doc;
    let i = cursor as int;
    assert(records(chain[i], acts[i]) && apply_model(chain[i], acts[i]) == Some(chain[i + 1]));
    assert(chain_ok(acts, chain) && chain[cursor + 1int] == apply_model(doc, acts[cursor as int])->0);
}

/// Applying an action that records the tracked document keeps the history
/// tracking the document: the new history tracks the result.
pub proof fn law_tracked_apply<N>(
    acts: Seq<ChalkAction<N>>,
    cursor: nat,
    capacity: nat,
    doc: Seq<PrimitiveModel<N>>,
    action: ChalkAction<N>,
)
    requires
        tracks(acts, cursor, doc),
        cursor <= acts.len(),
        records(doc, action),
    ensures
        apply_model(doc, action) is Some,
        ({
            let (kept, c) = after_apply(acts, cursor, capacity, action);
            tracks(kept, c, apply_model(doc, action)->0)
        }),
{
    law_undo_reverts_apply(doc, action);
    let chain = choose|chain: Seq<Seq<PrimitiveModel<N>>>| chain_ok(acts, chain) && chain[cursor as int] == doc;
    let k: int = dropped_for(cursor, capacity) as int;
    let c1: int = cursor - k;
    let d1 = apply_model(doc, action)->0;
    let (kept, c) = after_apply(acts, cursor, capacity, action);
    let chain2 = chain.subrange(k, cursor as int).push(doc).push(d1);
    assert(kept =~= acts.subrange(k, cursor as int).push(action));
    assert forall|i: int| #![trigger kept[i]] 0 <= i < kept.len() implies records(chain2[i], kept[i])
        && apply_model(chain2[i], kept[i]) == Some(chain2[i + 1]) by {
        if i < c1 {
            assert(kept[i] == acts[k + i]);
            assert(chain2[i] == chain[k + i]);
            if i + 1 < c1 {
                assert(chain2[i + 1] == chain[k + i + 1]);
            } else {
                assert(chain2[i + 1] == doc);
                assert(k + i + 1 == cursor);
            }
        } else {
            assert(i == c1);
            assert(kept[i] == action);
        }
    }
    assert(chain_ok(kept, chain2) && chain2[c as int] == d1);
}

/// Recording an already applied action that records the tracked document
/// keeps the history tracking the document the action turned it into.
pub proof fn law_tracked_push<N>(
    acts: Seq<ChalkAction<N>>,
    cursor: nat,
    capacity: nat,
    before: Seq<PrimitiveModel<N>>,
    after: Seq<PrimitiveModel<N>>,
    action: ChalkAction<N>,
)
    requires
        tracks(acts, cursor, before),
        cursor <= acts.len(),
        records(before, action),
        apply_model(before, action) == Some(after),
    ensures
        ({
            let (kept, c) = after_push(acts, cursor, capacity, action);
            tracks(kept, c, after)
        }),
{
    let chain = choose|chain: Seq<Seq<PrimitiveModel<N>>>| chain_ok(acts, chain) && chain[cursor as int] == before;
    let (kept, c) = after_push(acts, cursor, capacity, action);
    let prefix = acts.take(cursor as int);
    if prefix.len() == capacity && prefix.len() > 0 {
        let chain2 = chain.subrange(1, cursor + 1int).push(after);
        assert(kept =~= prefix.skip(1).push(action));
        assert forall|i: int| #![trigger kept[i]] 0 <= i < kept.len() implies records(chain2[i], kept[i])
            && apply_model(chain2[i], kept[i]) == Some(chain2[i + 1]) by {
            if i < cursor - 1 {
                assert(kept[i] == acts[i + 1]);
                assert(chain2[i] == chain[i + 1]);
                assert(chain2[i + 1] == chain[i + 2]);
            } else {
                assert(kept[i] == action);
                assert(chain2[i] == chain[cursor as int]);
            }
        }
        assert(chain_ok(kept, chain2) && chain2[c as int] == after);
    } else {
        let chain2 = chain.take(cursor + 1int).push(after);
        assert(kept =~= prefix.push(action));
        assert forall|i: int| #![trigger kept[i]] 0 <= i < kept.len() implies records(chain2[i], kept[i])
            && apply_model(chain2[i], kept[i]) == Some(chain2[i + 1]) by {
            if i < cursor {
                assert(kept[i] == acts[i]);
                assert(chain2[i] == chain[i]);
                assert(chain2[i + 1] == chain[i + 1]);
            } else {
                assert(kept[i] == action);
                assert(chain2[i] == chain[cursor as int]);
            }
        }
        assert(chain_ok(kept, chain2) && chain2[c as int] == after);
    }
}

impl<N> History<N> {
    /// The recorded actions, oldest first.
    pub closed spec fn actions(&self) -> Seq<ChalkAction<N>> {
        self.actions@
    }

    /// How many of the recorded actions are applied.
    pub closed spec fn cursor(&self) -> nat {
        self.cursor as nat
    }

    /// The number of actions beyond which `apply` drops the oldest.
    pub closed spec fn capacity(&self) -> nat {
        self.capacity as nat
    }

    /// The cursor never passes the end of the recorded actions.
    #[verifier::type_invariant]
    pub open spec fn wf(&self) -> bool {
        self.cursor() <= self.actions().len()
    }

    /// Whether there is an applied action to undo.
    pub open spec fn can_undo(&self) -> bool {
        self.cursor() > 0
    }

    /// Whether there is an undone action to redo.
    pub open spec fn can_redo(&self) -> bool {
        self.cursor() < self.actions().len()
    }
}

impl<N> Default for History<N> {
    fn default() -> (r: Self)
        ensures
            r.wf(),
            r.actions() == Seq::<ChalkAction<N>>::empty(),
            r.cursor() == 0,
            r.capacity() == 100,
    {
        History { actions: VecDeque::new(), cursor: 0, capacity: 100 }
    }
}

impl<N: Copy> Clone for History<N> {
    /// A history with the same edits, cursor and capacity.
    fn clone(&self) -> (r: Self)
        ensures
            r.actions().len() == self.actions().len(),
            forall|k: int| 0 <= k < self.actions().len() ==> same_action(self.actions()[k], #[trigger] r.actions()[k]),
            r.cursor() == self.cursor(),
            r.capacity() == self.capacity(),
    {
        proof {
            use_type_invariant(self);
        }
        let mut actions: VecDeque<ChalkAction<N>> = VecDeque::new();
        let mut i: usize = 0;
        while i < self.actions.len()
            invariant
                i <= self.actions@.len(),
                actions@.len() == i,
                forall|k: int| 0 <= k < i ==> same_action(self.actions@[k], #[trigger] actions@[k]),
            decreases self.actions@.len() - i,
        {
            let c = duplicate_action(&self.actions[i]);
            actions.push_back(c);
            i += 1;
        }
        History { actions, cursor: self.cursor, capacity: self.capacity }
    }
}

impl<N: Copy> History<N> {
    /// Applies `action` to `doc` and records it, dropping every undone action
    /// and then, while the history is full, the oldest ones, so that no more
    /// than `capacity` actions are kept.
    pub fn apply(&mut self, doc: &mut Vec<Primitive<N>>, action: ChalkAction<N>)
        requires
            apply_model(doc_model(old(doc)@), action) is Some,
        ensures
            final(self).wf(),
            (final(self).actions(), final(self).cursor()) == after_apply(
                old(self).actions(),
                old(self).cursor(),
                old(self).capacity(),
                action,
            ),
            final(self).capacity() == old(self).capacity(),
            doc_model(final(doc)@) == apply_model(doc_model(old(doc)@), action)->0,
    {
        let (mut actions, mut cursor, capacity): (VecDeque<ChalkAction<N>>, usize, usize) = self.take_apart();
        let ghost acts = actions@;
        let ghost cur = cursor as nat;
        if cursor < actions.len() {
            actions.truncate(cursor);
        }
        let ghost kept = acts.take(cur as int);
        let ghost k = dropped_for(kept.len(), capacity as nat);
        assert(actions@ =~= kept.skip(0));
        let ghost mut j: nat = 0;
        while actions.len() > 0 && actions.len() >= capacity
            invariant
                capacity == old(self).capacity,
                kept == acts.take(cur as int),
                cur <= acts.len(),
                k == dropped_for(kept.len(), capacity as nat),
                j <= k,
                actions@ == kept.skip(j as int),
                cursor == kept.len() - j,
            decreases actions@.len(),
        {
            actions.pop_front();
            cursor -= 1;
            proof {
                j = j + 1;
                assert(actions@ =~= kept.skip(j as int));
            }
        }
        assert(j == k);
        self.apply_action(doc, &action);
        actions.push_back(action);
        assert(actions.len() == actions@.len());
        cursor += 1;
        *self = History { actions, cursor, capacity };
    }

    /// Takes the history apart into its actions, cursor and capacity,
    /// leaving an empty history of the same capacity.
    fn take_apart(&mut self) -> (r: (VecDeque<ChalkAction<N>>, usize, usize))
        ensures
            r.0@ == old(self).actions(),
            r.1 == old(self).cursor(),
            r.2 == old(self).capacity(),
            r.1 <= r.0@.len(),
    {
        proof {
            use_type_invariant(&*self);
        }
        let mut taken = History { actions: VecDeque::new(), cursor: 0, capacity: self.capacity };
        std::mem::swap(self, &mut taken);
        let cursor: usize = taken.cursor;
        let capacity: usize = taken.capacity;
        (taken.actions, cursor, capacity)
    }

    /// Applies `action` to `doc`.
    fn apply_action(&self, doc: &mut Vec<Primitive<N>>, action: &ChalkAction<N>)
        requires
            apply_model(doc_model(old(doc)@), *action) is Some,
        ensures
            doc_model(final(doc)@) == apply_model(doc_model(old(doc)@), *action)->0,
        decreases action,
    {
        let ghost d0 = doc_model(doc@);
        match action {
            ChalkAction::Add { primitive } => {
                doc.push(primitive.duplicate());
                assert(doc_model(doc@) =~= d0.push(primitive@));
            },
            ChalkAction::Delete { index, .. } => {
                doc.remove(*index);
                assert(doc_model(doc@) =~= d0.remove(*index as int));
            },
            ChalkAction::Transform { index, after, .. } => {
                doc.set(*index, after.duplicate());
                assert(doc_model(doc@) =~= d0.update(*index as int, after@));
            },
            ChalkAction::Clear { .. } => {
                doc.clear();
                assert(doc_model(doc@) =~= Seq::<PrimitiveModel<N>>::empty());
            },
            ChalkAction::Batch { actions } => {
                assert(decreases_to!(*action => *actions));
                assert(decreases_to!(*actions => actions@));
                assert(actions@.skip(0) =~= actions@);
                let mut i: usize = 0;
                while i < actions.len()
                    invariant
                        i <= actions.len(),
                        apply_all(doc_model(doc@), actions@.skip(i as int)) == apply_all(d0, actions@),
                        apply_all(d0, actions@) is Some,
                        decreases_to!(*action => actions@),
                    decreases actions.len() - i,
                {
                    proof {
                        assert(decreases_to!(actions@ => actions@[i as int]));
                        assert(actions@.skip(i as int)[0] == actions@[i as int]);
                        assert(actions@.skip(i as int).skip(1) =~= actions@.skip(i + 1));
                    }
                    self.apply_action(doc, &actions[i]);
                    i += 1;
                }
                assert(actions@.skip(i as int) =~= Seq::<ChalkAction<N>>::empty());
            },
        }
    }

    /// Steps the cursor back over the last applied action and undoes it.
    /// Does nothing when no action is applied.
    pub fn undo(&mut self, doc: &mut Vec<Primitive<N>>)
        requires
            old(self).can_undo() ==> undo_model(
                doc_model(old(doc)@),
                old(self).actions()[old(self).cursor() - 1],
            ) is Some,
        ensures
            final(self).wf(),
            final(self).actions() == old(self).actions(),
            final(self).capacity() == old(self).capacity(),
            old(self).can_undo() ==> {
                &&& final(self).cursor() == old(self).cursor() - 1
                &&& doc_model(final(doc)@) == undo_model(
                    doc_model(old(doc)@),
                    old(self).actions()[old(self).cursor() - 1],
                )->0
            },
            !old(self).can_undo() ==> final(self).cursor() == old(self).cursor() && final(doc)@ == old(doc)@,
    {
        proof {
            use_type_invariant(&*self);
        }
        if self.cursor == 0 {
            return;
        }
        self.cursor -= 1;
        let action = &self.actions[self.cursor];
        self.undo_action(doc, action);
    }

    /// Undoes `action` on `doc`.
    fn undo_action(&self, doc: &mut Vec<Primitive<N>>, action: &ChalkAction<N>)
        requires
            undo_model(doc_model(old(doc)@), *action) is Some,
        ensures
            doc_model(final(doc)@) == undo_model(doc_model(old(doc)@), *action)->0,
        decreases action,
    {
        let ghost d0 = doc_model(doc@);
        match action {
            ChalkAction::Add { .. } => {
                doc.pop();
                assert(doc_model(doc@) =~= (if d0.len() > 0 { d0.drop_last() } else { d0 }));
            },
            ChalkAction::Delete { primitive, index } => {
                doc.insert(*index, primitive.duplicate());
                assert(doc_model(doc@) =~= d0.insert(*index as int, primitive@));
            },
            ChalkAction::Transform { index, before, .. } => {
                doc.set(*index, before.duplicate());
                assert(doc_model(doc@) =~= d0.update(*index as int, before@));
            },
            ChalkAction::Clear { previous } => {
                *doc = duplicate_doc(previous);
            },
            ChalkAction::Batch { actions } => {
                assert(decreases_to!(*action => *actions));
                assert(decreases_to!(*actions => actions@));
                assert(actions@.take(actions@.len() as int) =~= actions@);
                let mut i: usize = actions.len();
                while i > 0
                    invariant
                        i <= actions.len(),
                        undo_all(doc_model(doc@), actions@.take(i as int)) == undo_all(d0, actions@),
                        undo_all(d0, actions@) is Some,
                        decreases_to!(*action => actions@),
                    decreases i,
                {
                    i -= 1;
                    proof {
                        assert(decreases_to!(actions@ => actions@[i as int]));
                        assert(actions@.take(i + 1).last() == actions@[i as int]);
                        assert(actions@.take(i + 1).drop_last() =~= actions@.take(i as int));
                    }
                    self.undo_action(doc, &actions[i]);
                }
                assert(actions@.take(0) =~= Seq::<ChalkAction<N>>::empty());
            },
        }
    }

    /// Re-applies the first undone action and steps the cursor over it.
    /// Does nothing when no action is undone.
    pub fn redo(&mut self, doc: &mut Vec<Primitive<N>>)
        requires
            old(self).can_redo() ==> apply_model(
                doc_model(old(doc)@),
                old(self).actions()[old(self).cursor() as int],
            ) is Some,
        ensures
            final(self).wf(),
            final(self).actions() == old(self).actions(),
            final(self).capacity() == old(self).capacity(),
            old(self).can_redo() ==> {
                &&& final(self).cursor() == old(self).cursor() + 1
                &&& doc_model(final(doc)@) == apply_model(
                    doc_model(old(doc)@),
                    old(self).actions()[old(self).cursor() as int],
                )->0
            },
            !old(self).can_redo() ==> final(self).cursor() == old(self).cursor() && final(doc)@ == old(doc)@,
    {
        proof {
            use_type_invariant(&*self);
        }
        if self.cursor >= self.actions.len() {
            return;
        }
        let action = &self.actions[self.cursor];
        self.apply_action(doc, action);
        self.cursor += 1;
    }

    /// Empties `doc`, recording a `Clear` that keeps what it held.
    pub fn clear(&mut self, doc: &mut Vec<Primitive<N>>)
        ensures
            final(self).wf(),
            final(doc)@ == Seq::<Primitive<N>>::empty(),
            final(self).capacity() == old(self).capacity(),
            final(self).actions().len() > 0,
            final(self).actions().last() is Clear,
            doc_model(final(self).actions().last()->previous@) == doc_model(old(doc)@),
            (final(self).actions(), final(self).cursor()) == after_apply(
                old(self).actions(),
                old(self).cursor(),
                old(self).capacity(),
                final(self).actions().last(),
            ),
    {
        proof {
            use_type_invariant(&*self);
        }
        let previous = duplicate_doc(doc);
        self.apply(doc, ChalkAction::Clear { previous });
        assert(doc_model(doc@) =~= Seq::<PrimitiveModel<N>>::empty());
        assert(doc_model(doc@).len() == doc@.len());
        assert(doc@ =~= Seq::<Primitive<N>>::empty());
    }

    /// Records `action` as applied without applying it: for edits already
    /// made to the document. Drops every undone action and, when the history
    /// is exactly at capacity, the oldest one.
    pub fn push_without_apply(&mut self, action: ChalkAction<N>)
        ensures
            final(self).wf(),
            (final(self).actions(), final(self).cursor()) == after_push(
                old(self).actions(),
                old(self).cursor(),
                old(self).capacity(),
                action,
            ),
            final(self).capacity() == old(self).capacity(),
    {
        let (mut actions, mut cursor, capacity): (VecDeque<ChalkAction<N>>, usize, usize) = self.take_apart();
        let ghost acts = actions@;
        if cursor < actions.len() {
            actions.truncate(cursor);
        }
        assert(actions@ =~= acts.take(cursor as int));
        if actions.len() == capacity {
            actions.pop_front();
            if cursor > 0 {
                cursor -= 1;
            }
        }
        actions.push_back(action);
        assert(actions.len() == actions@.len());
        cursor += 1;
        proof {
            let kept = acts.take(old(self).cursor as int);
            if kept.len() == old(self).capacity && kept.len() > 0 {
                assert(actions@ =~= kept.skip(1).push(action));
            } else {
                assert(actions@ =~= kept.push(action));
            }
        }
        *self = History { actions, cursor, capacity };
    }
}

} // verus!
