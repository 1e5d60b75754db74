use vstd::prelude::*;

use crate::canvas::primitives::{doc_model, duplicate_doc, Primitive, PrimitiveModel};

verus! {

/// One undoable edit of the document.
#[derive(Debug)]
pub enum ChalkAction<N> {
    /// A primitive appended to the end of the document.
    Add { primitive: Primitive<N> },
    /// The primitive at `index`, removed.
    Delete { primitive: Primitive<N>, index: usize },
    /// The primitive at `index`, replaced: `before` was there, `after` is.
    Transform { before: Primitive<N>, after: Primitive<N>, index: usize },
    /// The whole document emptied; `previous` is what it held.
    Clear { previous: Vec<Primitive<N>> },
    /// Several actions applied in order as one.
    Batch { actions: Vec<ChalkAction<N>> },
}

/// The number of primitives an action touches.
pub open spec fn action_len<N>(a: ChalkAction<N>) -> nat
    decreases a,
{
    match a {
        ChalkAction::Add { .. } | ChalkAction::Delete { .. } | ChalkAction::Transform { .. } => 1,
        ChalkAction::Clear { previous } => previous@.len(),
        ChalkAction::Batch { actions } => actions_len(actions@),
    }
}

/// The number of primitives a sequence of actions touches.
pub open spec fn actions_len<N>(acts: Seq<ChalkAction<N>>) -> nat
    decreases acts,
{
    if acts.len() == 0 {
        0
    } else {
        actions_len(acts.drop_last()) + action_len(acts.last())
    }
}

/// The document after an action is applied to it, or `None` where applying
/// it would index past the end of the document.
pub open spec fn apply_model<N>(doc: Seq<PrimitiveModel<N>>, a: ChalkAction<N>) -> Option<Seq<PrimitiveModel<N>>>
    decreases a,
{
    match a {
        ChalkAction::Add { primitive } => Some(doc.push(primitive@)),
        ChalkAction::Delete { index, .. } => {
            if index < doc.len() {
                Some(doc.remove(index as int))
            } else {
                None
            }
        },
        ChalkAction::Transform { after, index, .. } => {
            if index < doc.len() {
                Some(doc.update(index as int, after@))
            } else {
                None
            }
        },
        ChalkAction::Clear { .. } => Some(Seq::empty()),
        ChalkAction::Batch { actions } => apply_all(doc, actions@),
    }
}

/// The document after a sequence of actions is applied to it, first to last.
pub open spec fn apply_all<N>(doc: Seq<PrimitiveModel<N>>, acts: Seq<ChalkAction<N>>) -> Option<Seq<PrimitiveModel<N>>>
    decreases acts,
{
    if acts.len() == 0 {
        Some(doc)
    } else {
        match apply_model(doc, acts[0]) {
            Some(d) => apply_all(d, acts.skip(1)),
            None => None,
        }
    }
}

/// The document after an action is undone, or `None` where undoing it
/// would index past the end of the document.
pub open spec fn undo_model<N>(doc: Seq<PrimitiveModel<N>>, a: ChalkAction<N>) -> Option<Seq<PrimitiveModel<N>>>
    decreases a,
{
    match a {
        ChalkAction::Add { .. } => {
            if doc.len() > 0 {
                Some(doc.drop_last())
            } else {
                Some(doc)
            }
        },
        ChalkAction::Delete { primitive, index } => {
            if index <= doc.len() {
                Some(doc.insert(index as int, primitive@))
            } else {
                None
            }
        },
        ChalkAction::Transform { before, index, .. } => {
            if index < doc.len() {
                Some(doc.update(index as int, before@))
            } else {
                None
            }
        },
        ChalkAction::Clear { previous } => Some(doc_model(previous@)),
        ChalkAction::Batch { actions } => undo_all(doc, actions@),
    }
}

/// The document after a sequence of actions is undone, last to first.
pub open spec fn undo_all<N>(doc: Seq<PrimitiveModel<N>>, acts: Seq<ChalkAction<N>>) -> Option<Seq<PrimitiveModel<N>>>
    decreases acts,
{
    if acts.len() == 0 {
        Some(doc)
    } else {
        match undo_model(doc, acts.last()) {
            Some(d) => undo_all(d, acts.drop_last()),
            None => None,
        }
    }
}

/// A replacement by its values: the index, the primitive before and the
/// primitive after; `None` for any other action.
pub open spec fn transform_step<N>(a: ChalkAction<N>) -> Option<(usize, PrimitiveModel<N>, PrimitiveModel<N>)> {
    match a {
        ChalkAction::Transform { before, after, index } => Some((index, before@, after@)),
        _ => None,
    }
}

/// A removal by its values: the index and the primitive removed; `None`
/// for any other action.
pub open spec fn delete_step<N>(a: ChalkAction<N>) -> Option<(usize, PrimitiveModel<N>)> {
    match a {
        ChalkAction::Delete { primitive, index } => Some((index, primitive@)),
        _ => None,
    }
}

/// `a` is the replacements `steps`, in order: for one step a `Transform`
/// alone, for several a `Batch` of one `Transform` per step.
pub open spec fn bundles_transforms<N>(
    a: ChalkAction<N>,
    steps: Seq<(usize, PrimitiveModel<N>, PrimitiveModel<N>)>,
) -> bool {
    if steps.len() == 1 {
        transform_step(a) == Some(steps[0])
    } else {
        match a {
            ChalkAction::Batch { actions } => {
                &&& actions@.len() == steps.len()
                &&& forall|i: int| 0 <= i < steps.len() ==> transform_step(#[trigger] actions@[i]) == Some(steps[i])
            },
            _ => false,
        }
    }
}

/// `a` is the removals `steps`, in order: for one step a `Delete` alone,
/// for several a `Batch` of one `Delete` per step.
pub open spec fn bundles_deletes<N>(a: ChalkAction<N>, steps: Seq<(usize, PrimitiveModel<N>)>) -> bool {
    if steps.len() == 1 {
        delete_step(a) == Some(steps[0])
    } else {
        match a {
            ChalkAction::Batch { actions } => {
                &&& actions@.len() == steps.len()
                &&& forall|i: int| 0 <= i < steps.len() ==> delete_step(#[trigger] actions@[i]) == Some(steps[i])
            },
            _ => false,
        }
    }
}

/// An action records the document it is applied to: a deleted or replaced
/// primitive is the one at its index, and a cleared document is the one
/// that `Clear` keeps. Undoing such an action gives that document back.
pub open spec fn records<N>(doc: Seq<PrimitiveModel<N>>, a: ChalkAction<N>) -> bool
    decreases a,
{
    match a {
        ChalkAction::Add { .. } => true,
        ChalkAction::Delete { primitive, index } => index < doc.len() && doc[index as int] == primitive@,
        ChalkAction::Transform { before, index, .. } => index < doc.len() && doc[index as int] == before@,
        ChalkAction::Clear { previous } => doc_model(previous@) == doc,
        ChalkAction::Batch { actions } => records_all(doc, actions@),
    }
}

/// Each action of a sequence records the document it is applied to.
pub open spec fn records_all<N>(doc: Seq<PrimitiveModel<N>>, acts: Seq<ChalkAction<N>>) -> bool
    decreases acts,
{
    if acts.len() == 0 {
        true
    } else {
        &&& records(doc, acts[0])
        &&& match apply_model(doc, acts[0]) {
            Some(d) => records_all(d, acts.skip(1)),
            None => false,
        }
    }
}

/// Undoing a sequence of actions undoes its first action last.
proof fn lemma_undo_all_first<N>(doc: Seq<PrimitiveModel<N>>, acts: Seq<ChalkAction<N>>)
    requires
        acts.len() > 0,
    ensures
        undo_all(doc, acts) == (match undo_all(doc, acts.skip(1)) {
            Some(d) => undo_model(d, acts[0]),
            None => None,
        }),
    decreases acts.len(),
{
    if acts.len() == 1 {
        assert(acts.skip(1) =~= Seq::<ChalkAction<N>>::empty());
        assert(acts.drop_last() =~= Seq::<ChalkAction<N>>::empty());
    } else {
        assert(acts.skip(1).drop_last() =~= acts.drop_last().skip(1));
        assert(acts.skip(1).last() == acts.last());
        match undo_model(doc, acts.last()) {
            Some(d) => {
                lemma_undo_all_first(d, acts.drop_last());
            },
            None => {},
        }
    }
}

/// Undoing an action that records the document it was applied to gives that
/// document back.
pub proof fn law_undo_reverts_apply<N>(doc: Seq<PrimitiveModel<N>>, a: ChalkAction<N>)
    requires
        records(doc, a),
    ensures
        apply_model(doc, a) is Some,
        undo_model(apply_model(doc, a)->0, a) == Some(doc),
    decreases a,
{
    match a {
        ChalkAction::Add { primitive } => {
            assert(doc.push(primitive@).drop_last() =~= doc);
        },
        ChalkAction::Delete { primitive, index } => {
            assert(doc.remove(index as int).insert(index as int, primitive@) =~= doc);
        },
        ChalkAction::Transform { before, after, index } => {
            assert(doc.update(index as int, after@).update(index as int, before@) =~= doc);
        },
        ChalkAction::Clear { .. } => {},
        ChalkAction::Batch { actions } => {
            assert(decreases_to!(a => actions));
            assert(decreases_to!(actions => actions@));
            law_undo_all_reverts_apply_all(doc, actions@);
        },
    }
}

/// Undoing a sequence of actions, each of which records the document it is
/// applied to, gives back the document the sequence was applied to.
pub proof fn law_undo_all_reverts_apply_all<N>(doc: Seq<PrimitiveModel<N>>, acts: Seq<ChalkAction<N>>)
    requires
        records_all(doc, acts),
    ensures
        apply_all(doc, acts) is Some,
        undo_all(apply_all(doc, acts)->0, acts) == Some(doc),
    decreases acts,
{
    if acts.len() > 0 {
        law_undo_reverts_apply(doc, acts[0]);
        let d1 = apply_model(doc, acts[0])->0;
        law_undo_all_reverts_apply_all(d1, acts.skip(1));
        lemma_undo_all_first(apply_all(doc, acts)->0, acts);
    }
}

/// Applying a sequence with one more action at the end applies that action
/// to what the sequence gave.
pub proof fn lemma_apply_all_push<N>(doc: Seq<PrimitiveModel<N>>, acts: Seq<ChalkAction<N>>, a: ChalkAction<N>)
    ensures
        apply_all(doc, acts.push(a)) == (match apply_all(doc, acts) {
            Some(e) => apply_model(e, a),
            None => None,
        }),
    decreases acts.len(),
{
    if acts.len() == 0 {
        assert(acts.push(a)[0] == a);
        assert(acts.push(a).skip(1) =~= Seq::<ChalkAction<N>>::empty());
        match apply_model(doc, a) {
            Some(d) => {
                assert(apply_all(d, Seq::<ChalkAction<N>>::empty()) == Some(d));
            },
            None => {},
        }
    } else {
        assert(acts.push(a)[0] == acts[0]);
        assert(acts.push(a).skip(1) =~= acts.skip(1).push(a));
        match apply_model(doc, acts[0]) {
            Some(d) => {
                lemma_apply_all_push(d, acts.skip(1), a);
                assert(apply_all(doc, acts.push(a)) == apply_all(d, acts.skip(1).push(a)));
                assert(apply_all(doc, acts) == apply_all(d, acts.skip(1)));
            },
            None => {},
        }
    }
}

/// A sequence with one more action at the end records the documents it is
/// applied to when the sequence does and the new action records what the
/// sequence gave.
pub proof fn lemma_records_all_push<N>(doc: Seq<PrimitiveModel<N>>, acts: Seq<ChalkAction<N>>, a: ChalkAction<N>)
    requires
        records_all(doc, acts),
        records(apply_all(doc, acts)->0, a),
        apply_model(apply_all(doc, acts)->0, a) is Some,
    ensures
        records_all(doc, acts.push(a)),
    decreases acts.len(),
{
    law_undo_all_reverts_apply_all(doc, acts);
    if acts.len() == 0 {
        assert(acts.push(a)[0] == a);
        assert(acts.push(a).skip(1) =~= Seq::<ChalkAction<N>>::empty());
        assert(apply_all(doc, acts) == Some(doc));
        let d = apply_model(doc, a)->0;
        assert(records_all(d, Seq::<ChalkAction<N>>::empty()));
    } else {
        assert(acts.push(a)[0] == acts[0]);
        assert(acts.push(a).skip(1) =~= acts.skip(1).push(a));
        let d = apply_model(doc, acts[0])->0;
        assert(apply_all(doc, acts) == apply_all(d, acts.skip(1)));
        lemma_records_all_push(d, acts.skip(1), a);
    }
}

proof fn lemma_actions_len_prefix<N>(acts: Seq<ChalkAction<N>>, j: int)
    requires
        0 <= j <= acts.len(),
    ensures
        actions_len(acts.take(j)) <= actions_len(acts),
    decreases acts.len(),
{
    if j < acts.len() {
        lemma_actions_len_prefix(acts.drop_last(), j);
        assert(acts.drop_last().take(j) =~= acts.take(j));
    } else {
        assert(acts.take(j) =~= acts);
    }
}

/// Two actions are the same edit: the same kind, indices and primitives,
/// primitives compared by value.
pub open spec fn same_action<N>(a: ChalkAction<N>, b: ChalkAction<N>) -> bool
    decreases a,
{
    match a {
        ChalkAction::Add { primitive } => match b {
            ChalkAction::Add { primitive: q } => primitive@ == q@,
            _ => false,
        },
        ChalkAction::Delete { primitive, index } => match b {
            ChalkAction::Delete { primitive: q, index: j } => primitive@ == q@ && index == j,
            _ => false,
        },
        ChalkAction::Transform { before, after, index } => match b {
            ChalkAction::Transform { before: b2, after: a2, index: j } => before@ == b2@ && after@ == a2@ && index == j,
            _ => false,
        },
        ChalkAction::Clear { previous } => match b {
            ChalkAction::Clear { previous: q } => doc_model(previous@) == doc_model(q@),
            _ => false,
        },
        ChalkAction::Batch { actions } => match b {
            ChalkAction::Batch { actions: bs } => same_actions(actions@, bs@),
            _ => false,
        },
    }
}

/// Two sequences of actions are the same edits, position by position.
pub open spec fn same_actions<N>(x: Seq<ChalkAction<N>>, y: Seq<ChalkAction<N>>) -> bool
    decreases x,
{
    if x.len() == 0 {
        y.len() == 0
    } else {
        &&& y.len() == x.len()
        &&& same_actions(x.drop_last(), y.drop_last())
        &&& same_action(x.last(), y.last())
    }
}

/// A copy of an action, edit by edit.
pub fn duplicate_action<N: Copy>(a: &ChalkAction<N>) -> (r: ChalkAction<N>)
    ensures
        same_action(*a, r),
    decreases a,
{
    match a {
        ChalkAction::Add { primitive } => ChalkAction::Add { primitive: primitive.duplicate() },
        ChalkAction::Delete { primitive, index } => ChalkAction::Delete { primitive: primitive.duplicate(), index: *index },
        ChalkAction::Transform { before, after, index } => ChalkAction::Transform {
            before: before.duplicate(),
            after: after.duplicate(),
            index: *index,
        },
        ChalkAction::Clear { previous } => ChalkAction::Clear { previous: duplicate_doc(previous) },
        ChalkAction::Batch { actions } => {
            assert(decreases_to!(*a => *actions));
            assert(decreases_to!(*actions => actions@));
            let mut copies: Vec<ChalkAction<N>> = Vec::new();
            let mut i: usize = 0;
            while i < actions.len()
                invariant
                    i <= actions.len(),
                    same_actions(actions@.take(i as int), copies@),
                    decreases_to!(*a => actions@),
                decreases actions.len() - i,
            {
                proof {
                    assert(decreases_to!(actions@ => actions@[i as int]));
                }
                let c = duplicate_action(&actions[i]);
                proof {
                    assert(actions@.take(i + 1).drop_last() =~= actions@.take(i as int));
                    assert(copies@.push(c).drop_last() =~= copies@);
                }
                copies.push(c);
                i += 1;
            }
            assert(actions@.take(actions@.len() as int) =~= actions@);
            ChalkAction::Batch { actions: copies }
        },
    }
}

impl<N: Copy> Clone for ChalkAction<N> {
    /// The same edit.
    fn clone(&self) -> (r: Self)
        ensures
            same_action(*self, r),
    {
        duplicate_action(self)
    }
}

impl<N> ChalkAction<N> {
    /// The number of primitives this action touches: one for an add, delete
    /// or transform, the size of the cleared document for a clear, and the
    /// total of its parts for a batch.
    pub fn len(&self) -> (r: usize)
        requires
            action_len(*self) <= usize::MAX,
        ensures
            r == action_len(*self),
        decreases self,
    {
        match self {
            ChalkAction::Add { .. } | ChalkAction::Delete { .. } | ChalkAction::Transform { .. } => 1,
            ChalkAction::Clear { previous } => previous.len(),
            ChalkAction::Batch { actions } => {
                assert(decreases_to!(*self => *actions));
                assert(decreases_to!(*actions => actions@));
                let mut total: usize = 0;
                let mut i: usize = 0;
                while i < actions.len()
                    invariant
                        i <= actions.len(),
                        total == actions_len(actions@.take(i as int)),
                        actions_len(actions@) <= usize::MAX,
                        decreases_to!(*self => actions@),
                    decreases actions.len() - i,
                {
                    proof {
                        lemma_actions_len_prefix(actions@, i + 1);
                        assert(actions@.take(i + 1).drop_last() =~= actions@.take(i as int));
                        assert(decreases_to!(actions@ => actions@[i as int]));
                    }
                    let n = actions[i].len();
                    total = total + n;
                    i += 1;
                }
                assert(actions@.take(actions@.len() as int) =~= actions@);
                total
            },
        }
    }
}

} // verus!
