use vstd::prelude::*;

use crate::text::{contains, lowercase, seq_contains, to_lowercase};

verus! {

/// A single item shown in the command palette.
#[derive(Clone, Copy, Debug)]
pub struct PaletteItem {
    /// Displayed name.
    pub label: &'static str,
    /// Category shown in muted text beside the label.
    pub category: &'static str,
    /// Action string forwarded to `on_action` when selected.
    pub action: &'static str,
    /// Optional keyboard shortcut hint.
    pub shortcut: Option<&'static str>,
}

/// An item by its characters: (label, category, action, shortcut).
pub type ItemModel = (Seq<char>, Seq<char>, Seq<char>, Option<Seq<char>>);

impl View for PaletteItem {
    type V = ItemModel;

    open spec fn view(&self) -> ItemModel {
        (
            self.label@,
            self.category@,
            self.action@,
            match self.shortcut {
                Some(s) => Some(s@),
                None => None,
            },
        )
    }
}

/// All items of the palette, in display order.
pub open spec fn palette_table() -> Seq<ItemModel> {
    seq![
        ("Pan"@, "Tool"@, "tool:pan"@, Some("v"@)),
        ("Pen"@, "Tool"@, "tool:pen"@, Some("p"@)),
        ("Line"@, "Tool"@, "tool:line"@, Some("l"@)),
        ("Arrow"@, "Tool"@, "tool:arrow"@, Some("a"@)),
        ("Rect"@, "Tool"@, "tool:rect"@, Some("r"@)),
        ("Circle"@, "Tool"@, "tool:circle"@, Some("c"@)),
        ("Undo"@, "Action"@, "action:undo"@, Some("Ctrl+Z"@)),
        ("Redo"@, "Action"@, "action:redo"@, Some("Ctrl+Shift+Z"@)),
        ("Clear"@, "Action"@, "action:clear"@, None),
        ("Reset Zoom"@, "Action"@, "action:reset-zoom"@, Some("Ctrl+0"@)),
        ("Toggle Theme"@, "Action"@, "action:toggle-dark-mode"@, None),
        ("Generate"@, ""@, "ui:open-generation-palette"@, None),
    ]
}

impl PaletteItem {
    pub fn new(
        label: &'static str,
        category: &'static str,
        action: &'static str,
        shortcut: Option<&'static str>,
    ) -> (r: Self)
        ensures
            r.label == label,
            r.category == category,
            r.action == action,
            r.shortcut == shortcut,
    {
        PaletteItem { label, category, action, shortcut }
    }
}

/// All items available in the palette.
pub fn palette_items() -> (r: Vec<PaletteItem>)
    ensures
        r@.map_values(|it: PaletteItem| it@) == palette_table(),
{
    let mut v: Vec<PaletteItem> = Vec::new();
    // Tools
    v.push(PaletteItem::new("Pan", "Tool", "tool:pan", Some("v")));
    v.push(PaletteItem::new("Pen", "Tool", "tool:pen", Some("p")));
    v.push(PaletteItem::new("Line", "Tool", "tool:line", Some("l")));
    v.push(PaletteItem::new("Arrow", "Tool", "tool:arrow", Some("a")));
    v.push(PaletteItem::new("Rect", "Tool", "tool:rect", Some("r")));
    v.push(PaletteItem::new("Circle", "Tool", "tool:circle", Some("c")));
    // Actions
    v.push(PaletteItem::new("Undo", "Action", "action:undo", Some("Ctrl+Z")));
    v.push(PaletteItem::new("Redo", "Action", "action:redo", Some("Ctrl+Shift+Z")));
    v.push(PaletteItem::new("Clear", "Action", "action:clear", None));
    v.push(PaletteItem::new("Reset Zoom", "Action", "action:reset-zoom", Some("Ctrl+0")));
    v.push(PaletteItem::new("Toggle Theme", "Action", "action:toggle-dark-mode", None));
    // Generation
    v.push(PaletteItem::new("Generate", "", "ui:open-generation-palette", None));
    assert(v@.map_values(|it: PaletteItem| it@) =~= palette_table());
    v
}

/// An item with the given lowercased label and category is shown for a
/// lowercased query when the query is empty or occurs in either.
pub open spec fn shown_for(label: Seq<char>, category: Seq<char>, q: Seq<char>) -> bool {
    q.len() == 0 || seq_contains(label, q) || seq_contains(category, q)
}

/// An item is shown for a (lowercased) query when the query is empty or
/// occurs in the lowercased label or category.
pub open spec fn item_matches(it: ItemModel, q: Seq<char>) -> bool {
    shown_for(lowercase(it.0), lowercase(it.1), q)
}

/// Whether an item with the lowercased `label` and `category` is shown for
/// the lowercased `query`.
pub fn item_shown(label: &str, category: &str, query: &str) -> (r: bool)
    ensures
        r == shown_for(label@, category@, query@),
{
    query.unicode_len() == 0 || contains(label, query) || contains(category, query)
}

/// The items shown for a query, in order.
pub open spec fn filtered(items: Seq<ItemModel>, query: Seq<char>) -> Seq<ItemModel>
    decreases items.len(),
{
    if items.len() == 0 {
        Seq::empty()
    } else {
        let rest = filtered(items.drop_last(), query);
        if item_matches(items.last(), lowercase(query)) {
            rest.push(items.last())
        } else {
            rest
        }
    }
}

/// The items whose label or category contains the query, ignoring case;
/// all of them for an empty query.
pub fn filter_items(items: &Vec<PaletteItem>, query: &str) -> (r: Vec<PaletteItem>)
    ensures
        r@.map_values(|it: PaletteItem| it@) == filtered(items@.map_values(|it: PaletteItem| it@), query@),
{
    let q = to_lowercase(query);
    let q = q.as_str();
    let ghost all = items@.map_values(|it: PaletteItem| it@);
    let mut r: Vec<PaletteItem> = Vec::new();
    let mut i: usize = 0;
    while i < items.len()
        invariant
            i <= items@.len(),
            all == items@.map_values(|it: PaletteItem| it@),
            q@ == lowercase(query@),
            r@.map_values(|it: PaletteItem| it@) == filtered(all.take(i as int), query@),
        decreases items@.len() - i,
    {
        let it = items[i];
        let l = to_lowercase(it.label);
        let c = to_lowercase(it.category);
        let shown = item_shown(l.as_str(), c.as_str(), q);
        proof {
            assert(all.take(i + 1).drop_last() =~= all.take(i as int));
            assert(all.take(i + 1).last() == it@);
        }
        if shown {
            r.push(it);
            assert(r@.map_values(|it: PaletteItem| it@) =~= filtered(all.take(i as int), query@).push(it@));
        }
        i += 1;
    }
    assert(all.take(items@.len() as int) =~= all);
    r
}

/// What a key press in the palette's search box does.
#[derive(Clone, Copy, Debug, PartialEq, Eq, Structural)]
pub enum PaletteKey {
    /// Close the palette.
    Close,
    /// Highlight the row at this position.
    Select(usize),
    /// Run the action of the row at this position and close.
    Commit(usize),
    /// The key is the palette's, but there is nothing to do.
    Consume,
    /// The key is not the palette's: let it through.
    Pass,
}

/// The effect of a key press with `len` rows shown and row `selected`
/// highlighted: Escape closes, the arrows move the highlight round the list,
/// Enter runs the highlighted row.
pub open spec fn palette_key_effect(key: Seq<char>, selected: nat, len: nat) -> PaletteKey {
    if key == "Escape"@ {
        PaletteKey::Close
    } else if key == "ArrowDown"@ {
        if len > 0 { PaletteKey::Select(((selected + 1) % len) as usize) } else { PaletteKey::Consume }
    } else if key == "ArrowUp"@ {
        if len > 0 {
            PaletteKey::Select((if selected == 0 { len - 1 } else { selected - 1 }) as usize)
        } else {
            PaletteKey::Consume
        }
    } else if key == "Enter"@ {
        if selected < len { PaletteKey::Commit(selected as usize) } else { PaletteKey::Consume }
    } else {
        PaletteKey::Pass
    }
}

/// What a key press in the palette does.
pub fn palette_key(key: &str, selected: usize, len: usize) -> (r: PaletteKey)
    requires
        key@ == "ArrowDown"@ && len > 0 ==> selected < usize::MAX,
    ensures
        r == palette_key_effect(key@, selected as nat, len as nat),
        key@ == "Enter"@ && selected < len ==> r == PaletteKey::Commit(selected),
{
    proof {
        law_enter_commits_highlighted_row(selected as nat, len as nat);
    }
    if crate::text::str_eq(key, "Escape") {
        PaletteKey::Close
    } else if crate::text::str_eq(key, "ArrowDown") {
        if len > 0 { PaletteKey::Select((selected + 1) % len) } else { PaletteKey::Consume }
    } else if crate::text::str_eq(key, "ArrowUp") {
        if len > 0 {
            PaletteKey::Select(if selected == 0 { len - 1 } else { selected - 1 })
        } else {
            PaletteKey::Consume
        }
    } else if crate::text::str_eq(key, "Enter") {
        if selected < len { PaletteKey::Commit(selected) } else { PaletteKey::Consume }
    } else {
        PaletteKey::Pass
    }
}

/// The highlighted row kept inside a list of `len` rows: the last row when
/// it was past the end, and the first when the list is empty.
pub fn clamp_selected(selected: usize, len: usize) -> (r: usize)
    ensures
        len == 0 ==> r == 0,
        len > 0 ==> r == if selected < len - 1 { selected } else { (len - 1) as usize },
{
    if len == 0 {
        0
    } else if selected < len - 1 {
        selected
    } else {
        len - 1
    }
}

/// Enter runs the highlighted row whenever it is a row of the list, the last
/// row included, and does nothing otherwise; Escape always closes.
pub proof fn law_enter_commits_highlighted_row(selected: nat, len: nat)
    ensures
        selected < len ==> palette_key_effect("Enter"@, selected, len) == PaletteKey::Commit(selected as usize),
        selected >= len ==> palette_key_effect("Enter"@, selected, len) == PaletteKey::Consume,
        palette_key_effect("Escape"@, selected, len) == PaletteKey::Close,
{
    reveal_strlit("Escape");
    reveal_strlit("ArrowDown");
    reveal_strlit("ArrowUp");
    reveal_strlit("Enter");
    assert(("Escape"@).len() == 6);
    assert(("ArrowDown"@).len() == 9);
    assert(("ArrowUp"@).len() == 7);
    assert(("Enter"@).len() == 5);
}

/// Moving the highlight with the arrows always lands on a row of the list,
/// and down then up comes back to the same row.
pub proof fn law_palette_arrows_stay_in_list(selected: nat, len: nat)
    requires
        selected < len,
    ensures
        palette_key_effect("ArrowDown"@, selected, len) matches PaletteKey::Select(i) && i < len,
        palette_key_effect("ArrowUp"@, selected, len) matches PaletteKey::Select(i) && i < len,
        ({
            let down = ((selected + 1) % len) as nat;
            let up = if down == 0 { len - 1 } else { down - 1 };
            up == selected
        }),
{
    reveal_strlit("Escape");
    reveal_strlit("ArrowDown");
    reveal_strlit("ArrowUp");
    assert(("Escape"@).len() == 6);
    assert(("ArrowDown"@).len() == 9);
    assert(("ArrowUp"@).len() == 7);
    assert(("ArrowDown"@) != ("Escape"@));
    assert(("ArrowUp"@) != ("Escape"@));
    assert(("ArrowUp"@) != ("ArrowDown"@));
    if selected + 1 < len {
        vstd::arithmetic::div_mod::lemma_small_mod((selected + 1) as nat, len);
    } else {
        vstd::arithmetic::div_mod::lemma_mod_self_0(len as int);
    }
}

} // verus!
