use vstd::prelude::*;

use std::collections::{HashMap, HashSet};

use crate::canvas::action::{
    apply_all, apply_model, lemma_apply_all_push, lemma_records_all_push, records, records_all, undo_model,
    bundles_deletes, bundles_transforms, delete_step, transform_step, ChalkAction,
};
use crate::canvas::background::BackgroundKind;
use crate::canvas::drawing::ActiveDrawing;
use crate::canvas::history::{
    after_apply, after_push, law_empty_history_tracks, law_tracked_apply, law_tracked_push, law_tracked_redo,
    law_tracked_undo, tracks, History,
};
use crate::canvas::primitives::geometry::{Geometry, GeometryModel};
use crate::canvas::primitives::handle::HandleKind;
use crate::canvas::primitives::shape::ShapeInProgress;
use crate::canvas::primitives::style::{PrimitiveStyle, StyleModel};
use crate::canvas::primitives::{doc_model, Primitive, PrimitiveModel};
use crate::canvas::styles::{toggled, ChalkStyles, StylesModel};
use crate::canvas::tool::Tool;
use crate::canvas::types::ViewTransform;
use crate::ui::color::{hex_text, ChalkColor};

verus! {

broadcast use vstd::std_specs::hash::group_hash_axioms;

/// The entire state of the whiteboard.
pub struct WhiteboardState<N> {
    /// The history of actions and undo/redo state.
    pub history: History<N>,
    /// The stroke currently being drawn, if any. Not yet part of history.
    pub active: Option<ActiveDrawing<N>>,
    /// Whether the user is currently drawing (pointer down).
    pub is_drawing: bool,
    /// The selected primitives, by index into the document.
    pub selected: HashSet<usize>,
    /// The world-space position of the selected primitives' transforms when the drag began.
    pub drag_start_transforms: HashMap<usize, (N, N)>,
    /// World-space pointer position when the drag began.
    pub drag_start_world: Option<(N, N)>,
    /// If dragging a handle, which one.
    pub drag_handle: Option<HandleKind>,
    /// The full bounding box (minx, miny, maxx, maxy) at the moment a handle drag began.
    pub drag_handle_initial_aabb: Option<(N, N, N, N)>,
    /// Per-primitive geometry snapshot at drag start: (index, geometry, transform position).
    pub drag_handle_initial_geoms: Vec<(usize, Geometry<N>, (N, N))>,
    /// Screen-space corner where a rubber-band selection began.
    pub selection_drag_start: Option<(N, N)>,
    /// Screen-space corner the rubber-band selection is dragged to.
    pub selection_drag_current: Option<(N, N)>,
    /// Primitives drawn to the canvas
    pub document: Vec<Primitive<N>>,
    /// The current view transform (pan and zoom).
    pub vt: ViewTransform<N>,
    /// The currently selected tool.
    pub tool: Tool,
    /// The theme.
    pub style: ChalkStyles<'static>,
    /// The style given to new primitives.
    pub current_style: PrimitiveStyle<N>,
    /// Screen-space position of the last pointer event, used by Pan to
    /// compute deltas.
    pub last_pan_pos: Option<(N, N)>,
    /// The background pattern.
    pub background_pattern: BackgroundKind,
}

/// Every selected index falls inside a document of `len` primitives.
pub open spec fn selection_within(sel: Set<usize>, len: nat) -> bool {
    forall|i: usize| sel.contains(i) ==> i < len
}

/// The board's history tracks its document: every recorded action fits the
/// document it is undone or redone on.
pub open spec fn board_tracked<N>(s: WhiteboardState<N>) -> bool {
    tracks(s.history.actions(), s.history.cursor(), doc_model(s.document@))
}

/// Two boards agree on the view, the tool, the background pattern and every
/// pointer gesture in progress: they may differ only in the document, its
/// history, the selection and the styles.
pub open spec fn same_gesture<N>(a: WhiteboardState<N>, b: WhiteboardState<N>) -> bool {
    &&& a.active == b.active
    &&& a.is_drawing == b.is_drawing
    &&& a.drag_start_transforms == b.drag_start_transforms
    &&& a.drag_start_world == b.drag_start_world
    &&& a.drag_handle == b.drag_handle
    &&& a.drag_handle_initial_aabb == b.drag_handle_initial_aabb
    &&& a.drag_handle_initial_geoms == b.drag_handle_initial_geoms
    &&& a.selection_drag_start == b.selection_drag_start
    &&& a.selection_drag_current == b.selection_drag_current
    &&& a.vt == b.vt
    &&& a.tool == b.tool
    &&& a.last_pan_pos == b.last_pan_pos
    &&& a.background_pattern == b.background_pattern
}

/// Two boards agree on the document, its history, the selection, the
/// styles, the view, the tool and the background pattern: a pointer
/// gesture step changed at most its own bookkeeping.
pub open spec fn same_document<N>(a: WhiteboardState<N>, b: WhiteboardState<N>) -> bool {
    &&& a.document == b.document
    &&& a.history == b.history
    &&& a.selected == b.selected
    &&& a.style == b.style
    &&& a.current_style == b.current_style
    &&& a.vt == b.vt
    &&& a.tool == b.tool
    &&& a.background_pattern == b.background_pattern
}

/// The snapshot a resize keeps of the selected primitives before index
/// `hi`: index, geometry and position of each, in ascending order.
pub open spec fn handle_snapshot<N>(doc: Seq<PrimitiveModel<N>>, sel: Set<usize>, hi: int) -> Seq<
    (usize, GeometryModel<N>, (N, N)),
>
    decreases hi,
{
    if hi <= 0 {
        Seq::empty()
    } else {
        let rest = handle_snapshot(doc, sel, hi - 1);
        if 0 <= hi - 1 < doc.len() && sel.contains((hi - 1) as usize) {
            rest.push(((hi - 1) as usize, doc[hi - 1].geometry, doc[hi - 1].transform.position))
        } else {
            rest
        }
    }
}

/// A resize snapshot by its values.
pub open spec fn snapshot_model<N>(g: Seq<(usize, Geometry<N>, (N, N))>) -> Seq<(usize, GeometryModel<N>, (N, N))> {
    g.map_values(|e: (usize, Geometry<N>, (N, N))| (e.0, e.1@, e.2))
}

/// On a board whose history tracks its document, undo and redo always fit
/// the document: what `undo` and `redo` ask of the board holds.
pub proof fn law_tracked_board_undo_redo<N>(s: WhiteboardState<N>)
    requires
        s.history.wf(),
        board_tracked(s),
    ensures
        s.history.can_undo() ==> undo_model(
            doc_model(s.document@),
            s.history.actions()[s.history.cursor() - 1],
        ) is Some,
        s.history.can_redo() ==> apply_model(
            doc_model(s.document@),
            s.history.actions()[s.history.cursor() as int],
        ) is Some,
{
    let acts = s.history.actions();
    let cur = s.history.cursor();
    let d = doc_model(s.document@);
    if 0 < cur <= acts.len() {
        law_tracked_undo(acts, cur, d);
    }
    if cur < acts.len() {
        law_tracked_redo(acts, cur, d);
    }
}

/// A primitive with its stroke colour set to `hex`.
pub open spec fn with_stroke_color<N>(p: PrimitiveModel<N>, hex: Seq<char>) -> PrimitiveModel<N> {
    PrimitiveModel { style: StyleModel { stroke_color: Some(hex), ..p.style }, ..p }
}

/// A primitive with its stroke width set to `w`.
pub open spec fn with_stroke_width<N>(p: PrimitiveModel<N>, w: N) -> PrimitiveModel<N> {
    PrimitiveModel { style: StyleModel { stroke_width: w, ..p.style }, ..p }
}

/// Whether a selected primitive is stroked (and so takes a new stroke colour).
pub open spec fn recolorable<N>(doc: Seq<PrimitiveModel<N>>, sel: Set<usize>, i: int) -> bool {
    0 <= i < doc.len() && sel.contains(i as usize) && doc[i].style.stroke_color is Some
}

/// The document with every selected stroked primitive given the stroke colour `hex`.
pub open spec fn recolor<N>(doc: Seq<PrimitiveModel<N>>, sel: Set<usize>, hex: Seq<char>) -> Seq<PrimitiveModel<N>> {
    Seq::new(doc.len(), |i: int| if recolorable(doc, sel, i) { with_stroke_color(doc[i], hex) } else { doc[i] })
}

/// The document with every selected primitive given the stroke width `w`.
pub open spec fn rewidth<N>(doc: Seq<PrimitiveModel<N>>, sel: Set<usize>, w: N) -> Seq<PrimitiveModel<N>> {
    Seq::new(doc.len(), |i: int| if sel.contains(i as usize) { with_stroke_width(doc[i], w) } else { doc[i] })
}

/// The primitives at index `lo` and after that are not selected, in order.
pub open spec fn keep_from<N>(doc: Seq<PrimitiveModel<N>>, sel: Set<usize>, lo: int) -> Seq<PrimitiveModel<N>>
    decreases doc.len() - lo,
{
    if lo < 0 || lo >= doc.len() {
        Seq::empty()
    } else {
        (if sel.contains(lo as usize) { Seq::empty() } else { seq![doc[lo]] }) + keep_from(doc, sel, lo + 1)
    }
}

/// The document without its selected primitives.
pub open spec fn without_selected<N>(doc: Seq<PrimitiveModel<N>>, sel: Set<usize>) -> Seq<PrimitiveModel<N>> {
    keep_from(doc, sel, 0)
}

/// The selection after a click: with `ctrl` the hit primitive is toggled in
/// or out; without it, a click inside the current selection (on a selected
/// primitive or within the selection's bounds) keeps it, and any other click
/// selects just the hit primitive, or nothing.
pub open spec fn selection_after_click(sel: Set<usize>, hit: Option<usize>, inside_bounds: bool, ctrl: bool) -> Set<usize> {
    if ctrl {
        match hit {
            Some(i) => if sel.contains(i) { sel.remove(i) } else { sel.insert(i) },
            None => sel,
        }
    } else {
        let inside = (match hit { Some(i) => sel.contains(i), None => false }) || inside_bounds;
        if inside {
            sel
        } else {
            match hit {
                Some(i) => Set::empty().insert(i),
                None => Set::empty(),
            }
        }
    }
}

/// The replacements that recolouring records for the primitives before
/// index `hi`: one per stroked selected primitive, in ascending order.
pub open spec fn recolor_steps<N>(doc: Seq<PrimitiveModel<N>>, sel: Set<usize>, hex: Seq<char>, hi: int) -> Seq<
    (usize, PrimitiveModel<N>, PrimitiveModel<N>),
>
    decreases hi,
{
    if hi <= 0 {
        Seq::empty()
    } else {
        let rest = recolor_steps(doc, sel, hex, hi - 1);
        if recolorable(doc, sel, hi - 1) {
            rest.push(((hi - 1) as usize, doc[hi - 1], with_stroke_color(doc[hi - 1], hex)))
        } else {
            rest
        }
    }
}

/// The replacements that setting the stroke width records for the
/// primitives before index `hi`: one per selected primitive, in ascending
/// order.
pub open spec fn rewidth_steps<N>(doc: Seq<PrimitiveModel<N>>, sel: Set<usize>, w: N, hi: int) -> Seq<
    (usize, PrimitiveModel<N>, PrimitiveModel<N>),
>
    decreases hi,
{
    if hi <= 0 {
        Seq::empty()
    } else {
        let rest = rewidth_steps(doc, sel, w, hi - 1);
        if 0 <= hi - 1 < doc.len() && sel.contains((hi - 1) as usize) {
            rest.push(((hi - 1) as usize, doc[hi - 1], with_stroke_width(doc[hi - 1], w)))
        } else {
            rest
        }
    }
}

/// The removals that deleting the selection records for the primitives at
/// index `lo` and after: one per selected primitive, highest index first.
pub open spec fn delete_steps<N>(doc: Seq<PrimitiveModel<N>>, sel: Set<usize>, lo: int) -> Seq<(usize, PrimitiveModel<N>)>
    decreases doc.len() - lo,
{
    if lo < 0 || lo >= doc.len() {
        Seq::empty()
    } else {
        let rest = delete_steps(doc, sel, lo + 1);
        if sel.contains(lo as usize) {
            rest.push((lo as usize, doc[lo]))
        } else {
            rest
        }
    }
}

/// The replacements that recording in-place edits records: for each edit in
/// order, its index, the primitive that was there before and the one there now.
pub open spec fn edit_steps<N>(doc: Seq<PrimitiveModel<N>>, edits: Seq<(usize, PrimitiveModel<N>)>) -> Seq<
    (usize, PrimitiveModel<N>, PrimitiveModel<N>),
> {
    Seq::new(edits.len(), |k: int| (edits[k].0, edits[k].1, doc[edits[k].0 as int]))
}

/// What a click does to the selection. Without Ctrl: a click on a selected
/// primitive or anywhere inside the selection's bounds keeps the selection
/// as it is (so that it can be dragged from there); any other click selects
/// just the primitive hit, or nothing. With Ctrl: the primitive hit, and no
/// other, is toggled in or out; a Ctrl-click on nothing changes nothing.
pub proof fn law_click_selection(sel: Set<usize>, hit: Option<usize>, inside_bounds: bool, ctrl: bool)
    ensures
        !ctrl && inside_bounds ==> selection_after_click(sel, hit, inside_bounds, ctrl) == sel,
        !ctrl && (hit matches Some(i) && sel.contains(i)) ==> selection_after_click(sel, hit, inside_bounds, ctrl)
            == sel,
        !ctrl && !inside_bounds && !(hit matches Some(i) && sel.contains(i)) ==> ({
            let r = selection_after_click(sel, hit, inside_bounds, ctrl);
            &&& forall|j: usize| #[trigger] r.contains(j) <==> hit == Some(j)
        }),
        ctrl ==> ({
            let r = selection_after_click(sel, hit, inside_bounds, ctrl);
            &&& forall|j: usize| hit != Some(j) ==> (#[trigger] r.contains(j) <==> sel.contains(j))
            &&& (hit matches Some(i) ==> (r.contains(i) <==> !sel.contains(i)))
        }),
{
}

/// The document with each listed primitive put back to an earlier value:
/// `edits[k]` is an index and the primitive that was there before.
pub open spec fn restore<N>(doc: Seq<PrimitiveModel<N>>, edits: Seq<(usize, PrimitiveModel<N>)>) -> Seq<PrimitiveModel<N>> {
    Seq::new(
        doc.len(),
        |i: int|
            if exists|k: int| 0 <= k < edits.len() && edits[k].0 == i {
                edits[choose|k: int| 0 <= k < edits.len() && edits[k].0 == i].1
            } else {
                doc[i]
            },
    )
}

/// No index is listed twice.
pub open spec fn distinct_indices<N>(edits: Seq<(usize, PrimitiveModel<N>)>) -> bool {
    forall|a: int, b: int| 0 <= a < b < edits.len() ==> edits[a].0 != edits[b].0
}

/// The edits by their values.
pub open spec fn edits_model<N>(edits: Seq<(usize, Primitive<N>)>) -> Seq<(usize, PrimitiveModel<N>)> {
    edits.map_values(|e: (usize, Primitive<N>)| (e.0, e.1@))
}

proof fn lemma_restore_skip<N>(doc: Seq<PrimitiveModel<N>>, edits: Seq<(usize, PrimitiveModel<N>)>, k: int)
    requires
        0 <= k < edits.len(),
        distinct_indices(edits),
        forall|j: int| 0 <= j < edits.len() ==> edits[j].0 < doc.len(),
    ensures
        restore(doc, edits.skip(k))[edits[k].0 as int] == edits[k].1,
        restore(doc, edits.skip(k)).update(edits[k].0 as int, doc[edits[k].0 as int]) == restore(doc, edits.skip(k + 1)),
{
    let s = edits.skip(k);
    let t = edits.skip(k + 1);
    let i = edits[k].0 as int;
    assert(s[0] == edits[k]);
    assert(exists|j: int| 0 <= j < s.len() && s[j].0 == i);
    let c = choose|j: int| 0 <= j < s.len() && s[j].0 == i;
    assert(s[c] == edits[k + c]);
    assert(c == 0);
    assert forall|x: int| 0 <= x < doc.len() implies restore(doc, s).update(i, doc[i])[x] == restore(doc, t)[x] by {
        if x == i {
            assert forall|j: int| 0 <= j < t.len() implies t[j].0 != x by {
                assert(t[j] == edits[k + 1 + j]);
            }
        } else {
            if exists|j: int| 0 <= j < s.len() && s[j].0 == x {
                let cj = choose|j: int| 0 <= j < s.len() && s[j].0 == x;
                assert(cj != 0);
                assert(t[cj - 1] == s[cj]);
                assert(exists|j: int| 0 <= j < t.len() && t[j].0 == x);
                let dj = choose|j: int| 0 <= j < t.len() && t[j].0 == x;
                assert(t[dj] == edits[k + 1 + dj]);
                assert(s[cj] == edits[k + cj]);
                assert(dj + 1 == cj);
            } else {
                assert forall|j: int| 0 <= j < t.len() implies t[j].0 != x by {
                    assert(t[j] == s[j + 1]);
                }
            }
        }
    }
    assert(restore(doc, s).update(i, doc[i]) =~= restore(doc, t));
}

/// One action for a list: the action itself when there is exactly one,
/// else a batch of them in order.
pub fn single_or_batch<N>(actions: Vec<ChalkAction<N>>) -> (a: ChalkAction<N>)
    ensures
        actions@.len() == 1 ==> a == actions@[0],
        actions@.len() != 1 ==> a == (ChalkAction::Batch { actions }),
{
    if actions.len() == 1 {
        let mut actions = actions;
        actions.pop().unwrap()
    } else {
        ChalkAction::Batch { actions }
    }
}

/// A list of replacements bundled into one action is those replacements.
proof fn lemma_bundled_transforms<N>(
    actions: Vec<ChalkAction<N>>,
    a: ChalkAction<N>,
    steps: Seq<(usize, PrimitiveModel<N>, PrimitiveModel<N>)>,
)
    requires
        actions@.len() == steps.len(),
        forall|j: int| 0 <= j < steps.len() ==> transform_step(#[trigger] actions@[j]) == Some(steps[j]),
        actions@.len() == 1 ==> a == actions@[0],
        actions@.len() != 1 ==> a == (ChalkAction::Batch { actions }),
    ensures
        bundles_transforms(a, steps),
{
    if steps.len() == 1 {
        assert(transform_step(actions@[0]) == Some(steps[0]));
    }
}

/// A list of removals bundled into one action is those removals.
proof fn lemma_bundled_deletes<N>(actions: Vec<ChalkAction<N>>, a: ChalkAction<N>, steps: Seq<(usize, PrimitiveModel<N>)>)
    requires
        actions@.len() == steps.len(),
        forall|j: int| 0 <= j < steps.len() ==> delete_step(#[trigger] actions@[j]) == Some(steps[j]),
        actions@.len() == 1 ==> a == actions@[0],
        actions@.len() != 1 ==> a == (ChalkAction::Batch { actions }),
    ensures
        bundles_deletes(a, steps),
{
    if steps.len() == 1 {
        assert(delete_step(actions@[0]) == Some(steps[0]));
    }
}

/// A list that records the documents it walks through, bundled into one
/// action, records the first and yields the last.
proof fn lemma_single_or_batch<N>(doc: Seq<PrimitiveModel<N>>, actions: Vec<ChalkAction<N>>, a: ChalkAction<N>)
    requires
        actions@.len() > 0,
        records_all(doc, actions@),
        apply_all(doc, actions@) is Some,
        actions@.len() == 1 ==> a == actions@[0],
        actions@.len() > 1 ==> a == (ChalkAction::Batch { actions }),
    ensures
        records(doc, a),
        apply_model(doc, a) == apply_all(doc, actions@),
{
    lemma_bundle_applies(doc, actions, a);
}

/// A list bundled into one action yields what the list yields.
proof fn lemma_bundle_applies<N>(doc: Seq<PrimitiveModel<N>>, actions: Vec<ChalkAction<N>>, a: ChalkAction<N>)
    requires
        actions@.len() > 0,
        apply_all(doc, actions@) is Some,
        actions@.len() == 1 ==> a == actions@[0],
        actions@.len() > 1 ==> a == (ChalkAction::Batch { actions }),
    ensures
        apply_model(doc, a) == apply_all(doc, actions@),
        actions@.len() == 1 ==> records_all(doc, actions@) == (records(doc, a) && apply_model(doc, a) is Some),
{
    if actions@.len() == 1 {
        assert(actions@.skip(1) =~= Seq::<ChalkAction<N>>::empty());
        let d = apply_model(doc, actions@[0])->0;
        assert(apply_all(d, Seq::<ChalkAction<N>>::empty()) == Some(d));
        assert(records_all(d, Seq::<ChalkAction<N>>::empty()));
    }
}

impl<N: Copy> WhiteboardState<N> {
    /// A blank board with the dark theme, the pen tool, an empty history and
    /// the given view and drawing style.
    pub fn new(vt: ViewTransform<N>, current_style: PrimitiveStyle<N>) -> (r: Self)
        ensures
            r.history.wf(),
            r.history.actions().len() == 0,
            r.history.cursor() == 0,
            r.active is None,
            !r.is_drawing,
            r.selected@.is_empty(),
            r.drag_start_transforms@.is_empty(),
            r.drag_start_world is None,
            r.drag_handle is None,
            r.drag_handle_initial_aabb is None,
            r.drag_handle_initial_geoms@.len() == 0,
            r.selection_drag_start is None,
            r.selection_drag_current is None,
            r.document@.len() == 0,
            r.vt == vt,
            r.tool == Tool::Pen,
            r.style@ == crate::canvas::styles::theme(true, BackgroundKind::Blank),
            r.current_style == current_style,
            r.last_pan_pos is None,
            r.background_pattern == BackgroundKind::Blank,
            board_tracked(r),
    {
        proof {
            law_empty_history_tracks(Seq::<PrimitiveModel<N>>::empty());
        }
        let r = WhiteboardState {
            history: History::default(),
            active: None,
            is_drawing: false,
            selected: HashSet::new(),
            drag_start_transforms: HashMap::new(),
            drag_start_world: None,
            drag_handle: None,
            drag_handle_initial_aabb: None,
            drag_handle_initial_geoms: Vec::new(),
            selection_drag_start: None,
            selection_drag_current: None,
            document: Vec::new(),
            vt,
            tool: Tool::default(),
            style: ChalkStyles::dark(),
            current_style,
            last_pan_pos: None,
            background_pattern: BackgroundKind::Blank,
        };
        assert(doc_model(r.document@) =~= Seq::<PrimitiveModel<N>>::empty());
        r
    }

    /// Switches tool, cancelling any drawing, pan, selection and drag in progress.
    pub fn set_tool(&mut self, tool: Tool)
        ensures
            final(self).tool == tool,
            final(self).active is None,
            !final(self).is_drawing,
            final(self).last_pan_pos is None,
            final(self).selected@.is_empty(),
            final(self).drag_start_transforms@.is_empty(),
            final(self).drag_start_world is None,
            final(self).drag_handle is None,
            final(self).drag_handle_initial_aabb is None,
            final(self).drag_handle_initial_geoms@.len() == 0,
            final(self).document == old(self).document,
            final(self).history == old(self).history,
            final(self).style == old(self).style,
            final(self).current_style == old(self).current_style,
            final(self).vt == old(self).vt,
            final(self).background_pattern == old(self).background_pattern,
            board_tracked(*old(self)) ==> board_tracked(*final(self)),
            final(self).selection_drag_start == old(self).selection_drag_start,
            final(self).selection_drag_current == old(self).selection_drag_current,
    {
        self.active = None;
        self.is_drawing = false;
        self.last_pan_pos = None;
        self.selected.clear();
        self.drag_start_transforms.clear();
        self.drag_start_world = None;
        self.drag_handle = None;
        self.drag_handle_initial_aabb = None;
        self.drag_handle_initial_geoms.clear();
        self.tool = tool;
    }

    pub fn set_background_pattern(&mut self, pattern: BackgroundKind)
        ensures
            final(self).background_pattern == pattern,
            final(self).document == old(self).document,
            final(self).history == old(self).history,
            final(self).selected == old(self).selected,
            final(self).style == old(self).style,
            board_tracked(*old(self)) ==> board_tracked(*final(self)),
            final(self).current_style == old(self).current_style,
            same_gesture(*final(self), (WhiteboardState { background_pattern: pattern, ..*old(self) })),
    {
        self.background_pattern = pattern;
    }

    /// Switches to the light theme (`to_light`) or the dark one; does
    /// nothing when that theme is already on.
    pub fn change_theme(&mut self, to_light: bool)
        ensures
            final(self).style@ == (if old(self).style.is_dark != to_light {
                old(self).style@
            } else {
                toggled(old(self).style@)
            }),
            final(self).document == old(self).document,
            final(self).history == old(self).history,
            final(self).selected == old(self).selected,
            board_tracked(*old(self)) ==> board_tracked(*final(self)),
            final(self).current_style == old(self).current_style,
            same_gesture(*final(self), *old(self)),
    {
        if (to_light && self.style.is_light()) || (!to_light && self.style.is_dark()) {
            return;
        }
        self.style.toggle();
    }

    /// Undoes the last applied action on the document.
    pub fn undo(&mut self)
        requires
            old(self).history.can_undo() ==> undo_model(
                doc_model(old(self).document@),
                old(self).history.actions()[old(self).history.cursor() - 1],
            ) is Some,
        ensures
            final(self).history.wf(),
            final(self).history.actions() == old(self).history.actions(),
            final(self).history.capacity() == old(self).history.capacity(),
            old(self).history.can_undo() ==> {
                &&& final(self).history.cursor() == old(self).history.cursor() - 1
                &&& doc_model(final(self).document@) == undo_model(
                    doc_model(old(self).document@),
                    old(self).history.actions()[old(self).history.cursor() - 1],
                )->0
            },
            !old(self).history.can_undo() ==> final(self).history.cursor() == old(self).history.cursor()
                && final(self).document@ == old(self).document@,
            final(self).selected == old(self).selected,
            board_tracked(*old(self)) ==> board_tracked(*final(self)),
            final(self).style == old(self).style,
            final(self).current_style == old(self).current_style,
            same_gesture(*final(self), *old(self)),
    {
        proof {
            use_type_invariant(&self.history);
        }
        let ghost acts = self.history.actions();
        let ghost cur = self.history.cursor();
        let ghost d0 = doc_model(self.document@);
        self.history.undo(&mut self.document);
        proof {
            if tracks(acts, cur, d0) && cur > 0 {
                law_tracked_undo(acts, cur, d0);
            }
        }
    }

    /// Redoes the first undone action on the document.
    pub fn redo(&mut self)
        requires
            old(self).history.can_redo() ==> apply_model(
                doc_model(old(self).document@),
                old(self).history.actions()[old(self).history.cursor() as int],
            ) is Some,
        ensures
            final(self).history.wf(),
            final(self).history.actions() == old(self).history.actions(),
            final(self).history.capacity() == old(self).history.capacity(),
            old(self).history.can_redo() ==> {
                &&& final(self).history.cursor() == old(self).history.cursor() + 1
                &&& doc_model(final(self).document@) == apply_model(
                    doc_model(old(self).document@),
                    old(self).history.actions()[old(self).history.cursor() as int],
                )->0
            },
            !old(self).history.can_redo() ==> final(self).history.cursor() == old(self).history.cursor()
                && final(self).document@ == old(self).document@,
            final(self).selected == old(self).selected,
            board_tracked(*old(self)) ==> board_tracked(*final(self)),
            final(self).style == old(self).style,
            final(self).current_style == old(self).current_style,
            same_gesture(*final(self), *old(self)),
    {
        proof {
            use_type_invariant(&self.history);
        }
        let ghost acts = self.history.actions();
        let ghost cur = self.history.cursor();
        let ghost d0 = doc_model(self.document@);
        self.history.redo(&mut self.document);
        proof {
            if tracks(acts, cur, d0) && cur < acts.len() {
                law_tracked_redo(acts, cur, d0);
            }
        }
    }

    /// Empties the document as one undoable action and drops the drawing in progress.
    pub fn clear(&mut self)
        ensures
            final(self).history.wf(),
            final(self).document@.len() == 0,
            final(self).active is None,
            final(self).history.capacity() == old(self).history.capacity(),
            final(self).history.actions().len() > 0,
            ({
                let a = final(self).history.actions().last();
                &&& (final(self).history.actions(), final(self).history.cursor()) == after_apply(
                    old(self).history.actions(),
                    old(self).history.cursor(),
                    old(self).history.capacity(),
                    a,
                )
                &&& records(doc_model(old(self).document@), a)
                &&& apply_model(doc_model(old(self).document@), a) == Some(doc_model(final(self).document@))
            }),
            final(self).selected == old(self).selected,
            board_tracked(*old(self)) ==> board_tracked(*final(self)),
            final(self).style == old(self).style,
            final(self).current_style == old(self).current_style,
            same_gesture(*final(self), (WhiteboardState { active: None, ..*old(self) })),
    {
        proof {
            use_type_invariant(&self.history);
        }
        let ghost acts = self.history.actions();
        let ghost cur = self.history.cursor();
        let ghost cap = self.history.capacity();
        let ghost d0 = doc_model(self.document@);
        self.history.clear(&mut self.document);
        self.active = None;
        assert(doc_model(self.document@) =~= Seq::<PrimitiveModel<N>>::empty());
        proof {
            if tracks(acts, cur, d0) {
                law_tracked_apply(acts, cur, cap, d0, self.history.actions().last());
            }
        }
    }

    /// Sets the stroke colour of new primitives and of every selected stroked
    /// primitive; the change to the document is recorded in the history as
    /// one already applied action.
    pub fn set_stroke_color(&mut self, color: ChalkColor)
        requires
            selection_within(old(self).selected@, old(self).document@.len()),
        ensures
            final(self).current_style@ == (StyleModel {
                stroke_color: Some(hex_text(color)),
                ..old(self).current_style@
            }),
            doc_model(final(self).document@) == recolor(
                doc_model(old(self).document@),
                old(self).selected@,
                hex_text(color),
            ),
            final(self).history.wf(),
            final(self).history.capacity() == old(self).history.capacity(),
            (exists|i: int| recolorable(doc_model(old(self).document@), old(self).selected@, i)) ==> ({
                let a = final(self).history.actions().last();
                &&& final(self).history.actions().len() > 0
                &&& (final(self).history.actions(), final(self).history.cursor()) == after_push(
                    old(self).history.actions(),
                    old(self).history.cursor(),
                    old(self).history.capacity(),
                    a,
                )
                &&& records(doc_model(old(self).document@), a)
                &&& apply_model(doc_model(old(self).document@), a) == Some(doc_model(final(self).document@))
                &&& bundles_transforms(
                    a,
                    recolor_steps(
                        doc_model(old(self).document@),
                        old(self).selected@,
                        hex_text(color),
                        old(self).document@.len() as int,
                    ),
                )
            }),
            !(exists|i: int| recolorable(doc_model(old(self).document@), old(self).selected@, i))
                ==> final(self).history == old(self).history,
            final(self).selected == old(self).selected,
            final(self).style == old(self).style,
            final(self).tool == old(self).tool,
            board_tracked(*old(self)) ==> board_tracked(*final(self)),
            same_gesture(*final(self), *old(self)),
    {
        proof {
            use_type_invariant(&self.history);
        }
        let hex = color.to_hex();
        self.current_style.stroke_color = Some(hex.clone());
        let ghost d0 = doc_model(self.document@);
        let ghost sel = self.selected@;
        let ghost hx = hex@;
        let mut actions: Vec<ChalkAction<N>> = Vec::new();
        let n = self.document.len();
        let mut i: usize = 0;
        assert(apply_all(d0, actions@) == Some(d0));
        while i < n
            invariant
                n == self.document@.len(),
                n == d0.len(),
                i <= n,
                hx == hex_text(color),
                sel == self.selected@,
                self.selected == old(self).selected,
                self.history == old(self).history,
                self.style == old(self).style,
                self.tool == old(self).tool,
                same_gesture(*self, *old(self)),
                self.current_style@ == (StyleModel { stroke_color: Some(hx), ..old(self).current_style@ }),
                d0 == doc_model(old(self).document@),
                sel == old(self).selected@,
                hex@ == hx,
                records_all(d0, actions@),
                apply_all(d0, actions@) == Some(doc_model(self.document@)),
                forall|j: int| 0 <= j < i ==> #[trigger] doc_model(self.document@)[j] == recolor(d0, sel, hx)[j],
                forall|j: int| i <= j < n ==> #[trigger] doc_model(self.document@)[j] == d0[j],
                (actions@.len() > 0) == (exists|j: int| 0 <= j < i && recolorable(d0, sel, j)),
                actions@.len() == recolor_steps(d0, sel, hx, i as int).len(),
                forall|j: int|
                    0 <= j < actions@.len() ==> transform_step(#[trigger] actions@[j]) == Some(
                        recolor_steps(d0, sel, hx, i as int)[j],
                    ),
            decreases n - i,
        {
            let ghost cur = doc_model(self.document@);
            if self.selected.contains(&i) && self.document[i].style.stroke_color.is_some() {
                let before = self.document[i].duplicate();
                let mut after = before.duplicate();
                after.style.stroke_color = Some(hex.clone());
                self.document.set(i, after.duplicate());
                let t = ChalkAction::Transform { before, after, index: i };
                proof {
                    assert(cur[i as int] == d0[i as int]);
                    assert(records(cur, t));
                    lemma_records_all_push(d0, actions@, t);
                    lemma_apply_all_push(d0, actions@, t);
                    assert(doc_model(self.document@) =~= cur.update(i as int, after@));
                    assert(recolorable(d0, sel, i as int));
                    assert(after@ == with_stroke_color(d0[i as int], hx));
                }
                actions.push(t);
                proof {
                    let st = recolor_steps(d0, sel, hx, i + 1);
                    assert(st == recolor_steps(d0, sel, hx, i as int).push(
                        (i, d0[i as int], with_stroke_color(d0[i as int], hx)),
                    ));
                    assert forall|j: int| 0 <= j < actions@.len() implies transform_step(#[trigger] actions@[j]) == Some(
                        st[j],
                    ) by {}
                }
            } else {
                proof {
                    assert(!recolorable(d0, sel, i as int));
                }
            }
            i += 1;
        }
        proof {
            assert(doc_model(self.document@) =~= recolor(d0, sel, hx));
            assert forall|j: int| recolorable(d0, sel, j) implies 0 <= j < n by {}
        }
        if actions.len() == 0 {
            return;
        }
        let ghost list = actions;
        let ghost acts = self.history.actions();
        let ghost cur = self.history.cursor();
        let ghost cap = self.history.capacity();
        let action = single_or_batch(actions);
        proof {
            lemma_single_or_batch(d0, list, action);
            lemma_bundled_transforms(list, action, recolor_steps(d0, sel, hx, n as int));
            if tracks(acts, cur, d0) {
                law_tracked_push(acts, cur, cap, d0, doc_model(self.document@), action);
            }
        }
        self.history.push_without_apply(action);
    }

    /// Sets the stroke width of new primitives and of every selected
    /// primitive; the change to the document is recorded in the history as
    /// one already applied action.
    pub fn set_stroke_width(&mut self, width: N)
        requires
            selection_within(old(self).selected@, old(self).document@.len()),
        ensures
            final(self).current_style@ == (StyleModel { stroke_width: width, ..old(self).current_style@ }),
            doc_model(final(self).document@) == rewidth(doc_model(old(self).document@), old(self).selected@, width),
            final(self).history.wf(),
            final(self).history.capacity() == old(self).history.capacity(),
            !old(self).selected@.is_empty() ==> ({
                let a = final(self).history.actions().last();
                &&& final(self).history.actions().len() > 0
                &&& (final(self).history.actions(), final(self).history.cursor()) == after_push(
                    old(self).history.actions(),
                    old(self).history.cursor(),
                    old(self).history.capacity(),
                    a,
                )
                &&& records(doc_model(old(self).document@), a)
                &&& apply_model(doc_model(old(self).document@), a) == Some(doc_model(final(self).document@))
                &&& bundles_transforms(
                    a,
                    rewidth_steps(
                        doc_model(old(self).document@),
                        old(self).selected@,
                        width,
                        old(self).document@.len() as int,
                    ),
                )
            }),
            old(self).selected@.is_empty() ==> final(self).history == old(self).history,
            final(self).selected == old(self).selected,
            final(self).style == old(self).style,
            final(self).tool == old(self).tool,
            board_tracked(*old(self)) ==> board_tracked(*final(self)),
            same_gesture(*final(self), *old(self)),
    {
        proof {
            use_type_invariant(&self.history);
        }
        self.current_style.stroke_width = width;
        let ghost d0 = doc_model(self.document@);
        let ghost sel = self.selected@;
        if self.selected.is_empty() {
            assert(doc_model(self.document@) =~= rewidth(d0, sel, width));
            return;
        }
        let mut actions: Vec<ChalkAction<N>> = Vec::new();
        let n = self.document.len();
        let mut i: usize = 0;
        assert(apply_all(d0, actions@) == Some(d0));
        while i < n
            invariant
                n == self.document@.len(),
                n == d0.len(),
                i <= n,
                sel == self.selected@,
                !sel.is_empty(),
                selection_within(sel, n as nat),
                self.selected == old(self).selected,
                self.history == old(self).history,
                self.style == old(self).style,
                self.tool == old(self).tool,
                same_gesture(*self, *old(self)),
                self.current_style@ == (StyleModel { stroke_width: width, ..old(self).current_style@ }),
                d0 == doc_model(old(self).document@),
                records_all(d0, actions@),
                apply_all(d0, actions@) == Some(doc_model(self.document@)),
                forall|j: int| 0 <= j < i ==> #[trigger] doc_model(self.document@)[j] == rewidth(d0, sel, width)[j],
                forall|j: int| i <= j < n ==> #[trigger] doc_model(self.document@)[j] == d0[j],
                (actions@.len() > 0) == (exists|j: usize| j < i && sel.contains(j)),
                actions@.len() == rewidth_steps(d0, sel, width, i as int).len(),
                forall|j: int|
                    0 <= j < actions@.len() ==> transform_step(#[trigger] actions@[j]) == Some(
                        rewidth_steps(d0, sel, width, i as int)[j],
                    ),
            decreases n - i,
        {
            let ghost cur = doc_model(self.document@);
            if self.selected.contains(&i) {
                let before = self.document[i].duplicate();
                let mut after = before.duplicate();
                after.style.stroke_width = width;
                self.document.set(i, after.duplicate());
                let t = ChalkAction::Transform { before, after, index: i };
                proof {
                    assert(cur[i as int] == d0[i as int]);
                    assert(records(cur, t));
                    lemma_records_all_push(d0, actions@, t);
                    lemma_apply_all_push(d0, actions@, t);
                    assert(doc_model(self.document@) =~= cur.update(i as int, after@));
                    assert(after@ == with_stroke_width(d0[i as int], width));
                }
                actions.push(t);
                proof {
                    let st = rewidth_steps(d0, sel, width, i + 1);
                    assert(st == rewidth_steps(d0, sel, width, i as int).push(
                        (i, d0[i as int], with_stroke_width(d0[i as int], width)),
                    ));
                    assert forall|j: int| 0 <= j < actions@.len() implies transform_step(#[trigger] actions@[j]) == Some(
                        st[j],
                    ) by {}
                }
            }
            i += 1;
        }
        proof {
            assert(doc_model(self.document@) =~= rewidth(d0, sel, width));
            let j = sel.choose();
            assert(sel.contains(j));
        }
        let ghost list = actions;
        let ghost acts = self.history.actions();
        let ghost cur = self.history.cursor();
        let ghost cap = self.history.capacity();
        let action = single_or_batch(actions);
        proof {
            lemma_single_or_batch(d0, list, action);
            lemma_bundled_transforms(list, action, rewidth_steps(d0, sel, width, n as int));
            if tracks(acts, cur, d0) {
                law_tracked_push(acts, cur, cap, d0, doc_model(self.document@), action);
            }
        }
        self.history.push_without_apply(action);
    }

    /// Deletes the selected primitives as one undoable action (highest index
    /// first, so that the others keep their place) and clears the selection.
    /// Does nothing when nothing is selected.
    pub fn delete_selected(&mut self)
        requires
            selection_within(old(self).selected@, old(self).document@.len()),
        ensures
            final(self).history.wf(),
            final(self).history.capacity() == old(self).history.capacity(),
            old(self).selected@.is_empty() ==> {
                &&& final(self).selected == old(self).selected
                &&& final(self).document == old(self).document
                &&& final(self).history == old(self).history
            },
            !old(self).selected@.is_empty() ==> {
                let a = final(self).history.actions().last();
                &&& final(self).selected@.is_empty()
                &&& doc_model(final(self).document@) == without_selected(
                    doc_model(old(self).document@),
                    old(self).selected@,
                )
                &&& final(self).history.actions().len() > 0
                &&& (final(self).history.actions(), final(self).history.cursor()) == after_apply(
                    old(self).history.actions(),
                    old(self).history.cursor(),
                    old(self).history.capacity(),
                    a,
                )
                &&& records(doc_model(old(self).document@), a)
                &&& apply_model(doc_model(old(self).document@), a) == Some(doc_model(final(self).document@))
                &&& bundles_deletes(a, delete_steps(doc_model(old(self).document@), old(self).selected@, 0))
            },
            board_tracked(*old(self)) ==> board_tracked(*final(self)),
            final(self).style == old(self).style,
            final(self).current_style == old(self).current_style,
            same_gesture(*final(self), *old(self)),
    {
        proof {
            use_type_invariant(&self.history);
        }
        if self.selected.is_empty() {
            return;
        }
        let ghost d0 = doc_model(self.document@);
        let ghost sel = self.selected@;
        let mut actions: Vec<ChalkAction<N>> = Vec::new();
        let n = self.document.len();
        let mut i: usize = n;
        assert(d0.take(n as int) + keep_from(d0, sel, n as int) =~= d0);
        assert(apply_all(d0, actions@) == Some(d0));
        while i > 0
            invariant
                n == self.document@.len(),
                n == d0.len(),
                i <= n,
                sel == self.selected@,
                !sel.is_empty(),
                selection_within(sel, n as nat),
                d0 == doc_model(self.document@),
                records_all(d0, actions@),
                apply_all(d0, actions@) == Some(d0.take(i as int) + keep_from(d0, sel, i as int)),
                (actions@.len() > 0) == (exists|j: usize| i <= j < n && sel.contains(j)),
                actions@.len() == delete_steps(d0, sel, i as int).len(),
                forall|j: int|
                    0 <= j < actions@.len() ==> delete_step(#[trigger] actions@[j]) == Some(
                        delete_steps(d0, sel, i as int)[j],
                    ),
            decreases i,
        {
            i -= 1;
            let ghost cur = d0.take(i + 1) + keep_from(d0, sel, i + 1);
            if self.selected.contains(&i) {
                let t = ChalkAction::Delete { primitive: self.document[i].duplicate(), index: i };
                proof {
                    assert(cur[i as int] == d0[i as int]);
                    assert(records(cur, t));
                    lemma_records_all_push(d0, actions@, t);
                    lemma_apply_all_push(d0, actions@, t);
                    assert(keep_from(d0, sel, i as int) == keep_from(d0, sel, i + 1));
                    assert(cur.remove(i as int) =~= d0.take(i as int) + keep_from(d0, sel, i as int));
                }
                actions.push(t);
                proof {
                    let st = delete_steps(d0, sel, i as int);
                    assert(st == delete_steps(d0, sel, i + 1).push((i, d0[i as int])));
                    assert forall|j: int| 0 <= j < actions@.len() implies delete_step(#[trigger] actions@[j]) == Some(
                        st[j],
                    ) by {}
                }
            } else {
                proof {
                    assert(keep_from(d0, sel, i as int) == seq![d0[i as int]] + keep_from(d0, sel, i + 1));
                    assert(cur =~= d0.take(i as int) + keep_from(d0, sel, i as int));
                    assert(delete_steps(d0, sel, i as int) == delete_steps(d0, sel, i + 1));
                }
            }
        }
        proof {
            assert(d0.take(0) + keep_from(d0, sel, 0) =~= keep_from(d0, sel, 0));
            let j = sel.choose();
            assert(sel.contains(j));
        }
        let ghost list = actions;
        let action = single_or_batch(actions);
        let ghost acts = self.history.actions();
        let ghost cur = self.history.cursor();
        let ghost cap = self.history.capacity();
        proof {
            lemma_single_or_batch(d0, list, action);
            lemma_bundled_deletes(list, action, delete_steps(d0, sel, 0));
            if tracks(acts, cur, d0) {
                law_tracked_apply(acts, cur, cap, d0, action);
            }
        }
        self.history.apply(&mut self.document, action);
        self.selected.clear();
    }

    /// Records primitives already changed in place (moved or resized by a
    /// drag): `edits` lists each changed index with the primitive that was
    /// there before. The document stays as it is; one action replacing each
    /// earlier primitive by the current one is applied and recorded. Does
    /// nothing when `edits` is empty.
    pub fn record_edits(&mut self, edits: Vec<(usize, Primitive<N>)>)
        requires
            forall|k: int| 0 <= k < edits@.len() ==> #[trigger] edits@[k].0 < old(self).document@.len(),
        ensures
            final(self).history.wf(),
            final(self).history.capacity() == old(self).history.capacity(),
            doc_model(final(self).document@) == doc_model(old(self).document@),
            final(self).selected == old(self).selected,
            edits@.len() == 0 ==> final(self).history == old(self).history,
            edits@.len() > 0 ==> ({
                let a = final(self).history.actions().last();
                let d0 = doc_model(old(self).document@);
                let restored = restore(d0, edits_model(edits@));
                &&& final(self).history.actions().len() > 0
                &&& (final(self).history.actions(), final(self).history.cursor()) == after_apply(
                    old(self).history.actions(),
                    old(self).history.cursor(),
                    old(self).history.capacity(),
                    a,
                )
                &&& apply_model(d0, a) == Some(d0)
                &&& bundles_transforms(a, edit_steps(d0, edits_model(edits@)))
                &&& distinct_indices(edits_model(edits@)) ==> {
                    &&& records(restored, a)
                    &&& apply_model(restored, a) == Some(d0)
                }
            }),
            distinct_indices(edits_model(edits@)) && tracks(
                old(self).history.actions(),
                old(self).history.cursor(),
                restore(doc_model(old(self).document@), edits_model(edits@)),
            ) ==> board_tracked(*final(self)),
            final(self).style == old(self).style,
            final(self).current_style == old(self).current_style,
            same_gesture(*final(self), *old(self)),
    {
        proof {
            use_type_invariant(&self.history);
        }
        if edits.len() == 0 {
            assert(restore(doc_model(self.document@), edits_model(edits@)) =~= doc_model(self.document@));
            return;
        }
        let ghost d0 = doc_model(self.document@);
        let ghost em = edits_model(edits@);
        let ghost restored = restore(d0, em);
        let mut actions: Vec<ChalkAction<N>> = Vec::new();
        let mut k: usize = 0;
        assert(apply_all(d0, actions@) == Some(d0));
        assert(apply_all(restored, actions@) == Some(restored));
        assert(em.skip(0) =~= em);
        while k < edits.len()
            invariant
                k <= edits@.len(),
                d0 == doc_model(self.document@),
                em == edits_model(edits@),
                restored == restore(d0, em),
                self.history == old(self).history,
                self.selected == old(self).selected,
                self.document == old(self).document,
                forall|j: int| 0 <= j < edits@.len() ==> #[trigger] edits@[j].0 < d0.len(),
                actions@.len() == k,
                forall|j: int|
                    0 <= j < k ==> transform_step(#[trigger] actions@[j]) == Some(edit_steps(d0, em)[j]),
                apply_all(d0, actions@) == Some(d0),
                distinct_indices(em) ==> {
                    &&& records_all(restored, actions@)
                    &&& apply_all(restored, actions@) == Some(restore(d0, em.skip(k as int)))
                },
            decreases edits@.len() - k,
        {
            let idx = edits[k].0;
            let before = edits[k].1.duplicate();
            let after = self.document[idx].duplicate();
            let t = ChalkAction::Transform { before, after, index: idx };
            proof {
                assert(em[k as int] == (idx, edits@[k as int].1@));
                assert(transform_step(t) == Some(edit_steps(d0, em)[k as int]));
                lemma_apply_all_push(d0, actions@, t);
                assert(d0.update(idx as int, after@) =~= d0);
                if distinct_indices(em) {
                    lemma_restore_skip(d0, em, k as int);
                    let cur = restore(d0, em.skip(k as int));
                    assert(records(cur, t));
                    lemma_records_all_push(restored, actions@, t);
                    lemma_apply_all_push(restored, actions@, t);
                }
            }
            actions.push(t);
            k += 1;
        }
        proof {
            if distinct_indices(em) {
                assert(restore(d0, em.skip(k as int)) =~= d0);
            }
        }
        let ghost list = actions;
        let action = single_or_batch(actions);
        let ghost acts = self.history.actions();
        let ghost cur = self.history.cursor();
        let ghost cap = self.history.capacity();
        proof {
            lemma_bundle_applies(d0, list, action);
            lemma_bundled_transforms(list, action, edit_steps(d0, em));
            if distinct_indices(em) {
                lemma_single_or_batch(restored, list, action);
                if tracks(acts, cur, restored) {
                    law_tracked_apply(acts, cur, cap, restored, action);
                }
            }
        }
        self.history.apply(&mut self.document, action);
    }

    /// Starts a stroke, a shape, a pan or nothing at the pointer (`screen`
    /// on screen, `world` in the document): a middle-button press and the
    /// pan tool pan from `screen`, the pen starts a stroke at `world`, a
    /// shape tool a shape anchored there, the pointer tool nothing.
    pub fn begin_drawing_at(&mut self, screen: (N, N), world: (N, N), is_middle_mouse: bool)
        ensures
            final(self).is_drawing,
            same_document(*final(self), *old(self)),
            is_middle_mouse ==> final(self).last_pan_pos == Some(screen) && final(self).active is None,
            !is_middle_mouse ==> match old(self).tool {
                Tool::Pan => final(self).last_pan_pos == Some(screen) && final(self).active is None,
                Tool::Pointer => final(self).last_pan_pos == old(self).last_pan_pos && final(self).active is None,
                Tool::Pen => final(self).last_pan_pos == old(self).last_pan_pos && match final(self).active {
                    Some(ActiveDrawing::Stroke(pts)) => pts@ == seq![world],
                    _ => false,
                },
                Tool::Shape(kind) => final(self).last_pan_pos == old(self).last_pan_pos && match final(self).active {
                    Some(ActiveDrawing::Shape(sh)) => sh.kind == kind && sh.anchor == world && sh.current == world,
                    _ => false,
                },
            },
            final(self).drag_start_transforms == old(self).drag_start_transforms,
            final(self).drag_start_world == old(self).drag_start_world,
            final(self).drag_handle == old(self).drag_handle,
            final(self).drag_handle_initial_aabb == old(self).drag_handle_initial_aabb,
            final(self).drag_handle_initial_geoms == old(self).drag_handle_initial_geoms,
            final(self).selection_drag_start == old(self).selection_drag_start,
            final(self).selection_drag_current == old(self).selection_drag_current,
    {
        self.is_drawing = true;
        if is_middle_mouse {
            self.last_pan_pos = Some(screen);
            self.active = None;
            return;
        }
        match self.tool {
            Tool::Pan => {
                self.last_pan_pos = Some(screen);
                self.active = None;
            },
            Tool::Pointer => {
                self.active = None;
            },
            Tool::Pen => {
                let mut pts: Vec<(N, N)> = Vec::new();
                pts.push(world);
                self.active = Some(ActiveDrawing::Stroke(pts));
            },
            Tool::Shape(kind) => {
                self.active = Some(ActiveDrawing::Shape(ShapeInProgress::new(kind, world)));
            },
        }
    }

    /// Ends the stroke, shape or pan in progress, handing back what was
    /// being drawn.
    pub fn finish_drawing(&mut self) -> (r: Option<ActiveDrawing<N>>)
        ensures
            r == old(self).active,
            final(self).active is None,
            !final(self).is_drawing,
            final(self).last_pan_pos is None,
            same_document(*final(self), *old(self)),
            final(self).drag_start_transforms == old(self).drag_start_transforms,
            final(self).drag_start_world == old(self).drag_start_world,
            final(self).drag_handle == old(self).drag_handle,
            final(self).drag_handle_initial_aabb == old(self).drag_handle_initial_aabb,
            final(self).drag_handle_initial_geoms == old(self).drag_handle_initial_geoms,
            final(self).selection_drag_start == old(self).selection_drag_start,
            final(self).selection_drag_current == old(self).selection_drag_current,
    {
        self.is_drawing = false;
        self.last_pan_pos = None;
        self.active.take()
    }

    /// Starts moving the selection from the document point `world`,
    /// remembering where each selected primitive stood.
    pub fn begin_drag_at(&mut self, world: (N, N))
        requires
            selection_within(old(self).selected@, old(self).document@.len()),
        ensures
            final(self).is_drawing,
            final(self).drag_start_world == Some(world),
            final(self).drag_start_transforms@ == Map::new(
                |i: usize| old(self).selected@.contains(i),
                |i: usize| old(self).document@[i as int].transform.position,
            ),
            same_document(*final(self), *old(self)),
            final(self).active == old(self).active,
            final(self).last_pan_pos == old(self).last_pan_pos,
            final(self).drag_handle == old(self).drag_handle,
            final(self).drag_handle_initial_aabb == old(self).drag_handle_initial_aabb,
            final(self).drag_handle_initial_geoms == old(self).drag_handle_initial_geoms,
            final(self).selection_drag_start == old(self).selection_drag_start,
            final(self).selection_drag_current == old(self).selection_drag_current,
    {
        let ghost sel = self.selected@;
        let n = self.document.len();
        let mut starts: HashMap<usize, (N, N)> = HashMap::new();
        let mut i: usize = 0;
        while i < n
            invariant
                n == self.document@.len(),
                i <= n,
                sel == self.selected@,
                starts@ == Map::new(
                    |j: usize| j < i && sel.contains(j),
                    |j: usize| self.document@[j as int].transform.position,
                ),
            decreases n - i,
        {
            if self.selected.contains(&i) {
                starts.insert(i, self.document[i].transform.position);
            }
            proof {
                assert(starts@ =~= Map::new(
                    |j: usize| j < i + 1 && sel.contains(j),
                    |j: usize| self.document@[j as int].transform.position,
                ));
            }
            i += 1;
        }
        assert(starts@ =~= Map::new(
            |j: usize| sel.contains(j),
            |j: usize| self.document@[j as int].transform.position,
        ));
        self.is_drawing = true;
        self.drag_start_world = Some(world);
        self.drag_start_transforms = starts;
    }

    /// Ends a move of the selection, handing back where each moved
    /// primitive stood when it began.
    pub fn finish_drag(&mut self) -> (r: HashMap<usize, (N, N)>)
        ensures
            r == old(self).drag_start_transforms,
            final(self).drag_start_transforms@.is_empty(),
            final(self).drag_start_world is None,
            !final(self).is_drawing,
            final(self).last_pan_pos is None,
            same_document(*final(self), *old(self)),
            final(self).active == old(self).active,
            final(self).drag_handle == old(self).drag_handle,
            final(self).drag_handle_initial_aabb == old(self).drag_handle_initial_aabb,
            final(self).drag_handle_initial_geoms == old(self).drag_handle_initial_geoms,
            final(self).selection_drag_start == old(self).selection_drag_start,
            final(self).selection_drag_current == old(self).selection_drag_current,
    {
        let mut starts: HashMap<usize, (N, N)> = HashMap::new();
        std::mem::swap(&mut starts, &mut self.drag_start_transforms);
        self.is_drawing = false;
        self.last_pan_pos = None;
        self.drag_start_world = None;
        starts
    }

    /// Starts resizing the selection with `handle` from the document point
    /// `world`; `bounds` is the selection's bounding box. Remembers the
    /// geometry and position of each selected primitive, in index order.
    pub fn begin_handle_drag_at(&mut self, handle: HandleKind, world: (N, N), bounds: Option<(N, N, N, N)>)
        requires
            selection_within(old(self).selected@, old(self).document@.len()),
        ensures
            final(self).is_drawing,
            final(self).drag_handle == Some(handle),
            final(self).drag_start_world == Some(world),
            final(self).drag_handle_initial_aabb == bounds,
            snapshot_model(final(self).drag_handle_initial_geoms@) == handle_snapshot(
                doc_model(old(self).document@),
                old(self).selected@,
                old(self).document@.len() as int,
            ),
            same_document(*final(self), *old(self)),
            final(self).active == old(self).active,
            final(self).last_pan_pos == old(self).last_pan_pos,
            final(self).drag_start_transforms == old(self).drag_start_transforms,
            final(self).selection_drag_start == old(self).selection_drag_start,
            final(self).selection_drag_current == old(self).selection_drag_current,
    {
        let ghost sel = self.selected@;
        let ghost d0 = doc_model(self.document@);
        let n = self.document.len();
        let mut snaps: Vec<(usize, Geometry<N>, (N, N))> = Vec::new();
        let mut i: usize = 0;
        while i < n
            invariant
                n == self.document@.len(),
                i <= n,
                sel == self.selected@,
                d0 == doc_model(self.document@),
                snapshot_model(snaps@) == handle_snapshot(d0, sel, i as int),
            decreases n - i,
        {
            if self.selected.contains(&i) {
                let g = self.document[i].geometry.duplicate();
                let pos = self.document[i].transform.position;
                proof {
                    assert(d0[i as int] == self.document@[i as int]@);
                }
                snaps.push((i, g, pos));
                proof {
                    assert(snapshot_model(snaps@) =~= handle_snapshot(d0, sel, i as int).push(
                        (i, d0[i as int].geometry, d0[i as int].transform.position),
                    ));
                }
            } else {
                assert(handle_snapshot(d0, sel, i + 1) == handle_snapshot(d0, sel, i as int));
            }
            i += 1;
        }
        self.is_drawing = true;
        self.drag_handle = Some(handle);
        self.drag_start_world = Some(world);
        self.drag_handle_initial_aabb = bounds;
        self.drag_handle_initial_geoms = snaps;
    }

    /// Ends a resize, handing back the snapshot taken when it began.
    pub fn finish_handle_drag(&mut self) -> (r: Vec<(usize, Geometry<N>, (N, N))>)
        ensures
            r == old(self).drag_handle_initial_geoms,
            final(self).drag_handle_initial_geoms@.len() == 0,
            final(self).drag_handle is None,
            final(self).drag_handle_initial_aabb is None,
            final(self).drag_start_world is None,
            !final(self).is_drawing,
            same_document(*final(self), *old(self)),
            final(self).active == old(self).active,
            final(self).last_pan_pos == old(self).last_pan_pos,
            final(self).drag_start_transforms == old(self).drag_start_transforms,
            final(self).selection_drag_start == old(self).selection_drag_start,
            final(self).selection_drag_current == old(self).selection_drag_current,
    {
        let mut snaps: Vec<(usize, Geometry<N>, (N, N))> = Vec::new();
        std::mem::swap(&mut snaps, &mut self.drag_handle_initial_geoms);
        self.is_drawing = false;
        self.drag_start_world = None;
        self.drag_handle = None;
        self.drag_handle_initial_aabb = None;
        snaps
    }

    /// Applies the outcome of a click to the selection: `hit` is the topmost
    /// primitive under the pointer and `inside_bounds` whether the pointer is
    /// within the bounds of the current selection. Returns whether anything
    /// is selected afterwards.
    pub fn apply_selection_hit(&mut self, hit: Option<usize>, inside_bounds: bool, ctrl: bool) -> (r: bool)
        ensures
            final(self).selected@ == selection_after_click(old(self).selected@, hit, inside_bounds, ctrl),
            !ctrl && inside_bounds ==> final(self).selected@ == old(self).selected@,
            r == !final(self).selected@.is_empty(),
            final(self).document == old(self).document,
            final(self).history == old(self).history,
            board_tracked(*old(self)) ==> board_tracked(*final(self)),
            final(self).style == old(self).style,
            final(self).current_style == old(self).current_style,
            same_gesture(*final(self), *old(self)),
    {
        if ctrl {
            match hit {
                Some(idx) => {
                    if self.selected.contains(&idx) {
                        self.selected.remove(&idx);
                    } else {
                        self.selected.insert(idx);
                    }
                },
                None => {},
            }
        } else {
            let on_selected = match hit {
                Some(idx) => self.selected.contains(&idx),
                None => false,
            };
            if !(on_selected || inside_bounds) {
                self.selected.clear();
                match hit {
                    Some(idx) => {
                        self.selected.insert(idx);
                    },
                    None => {},
                }
            }
        }
        proof {
            let expect = selection_after_click(old(self).selected@, hit, inside_bounds, ctrl);
            assert(self.selected@ =~= expect);
        }
        !self.selected.is_empty()
    }
}

} // verus!
