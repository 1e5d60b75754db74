use vstd::prelude::*;

use crate::text::str_eq;

verus! {

/// A single keybinding rule.
#[derive(Clone, Copy, Debug)]
pub struct Keybinding {
    /// The `KeyboardEvent.key` value to match (case-sensitive).
    pub key: &'static str,
    pub ctrl: bool,
    pub shift: bool,
    /// The action string forwarded to `on_action`.
    pub action: &'static str,
}

/// A keybinding by its characters: (key, ctrl, shift, action).
pub type BindingModel = (Seq<char>, bool, bool, Seq<char>);

impl View for Keybinding {
    type V = BindingModel;

    open spec fn view(&self) -> BindingModel {
        (self.key@, self.ctrl, self.shift, self.action@)
    }
}

/// All global keybindings, in the order they are tried.
pub open spec fn binding_table() -> Seq<BindingModel> {
    seq![
        ("Escape"@, false, false, "tool:pointer"@),
        (" "@, false, false, "ui:open-palette"@),
        ("q"@, false, false, "action:lock-tool"@),
        ("v"@, false, false, "tool:pan"@),
        ("p"@, false, false, "tool:pen"@),
        ("l"@, false, false, "tool:line"@),
        ("a"@, false, false, "tool:arrow"@),
        ("r"@, false, false, "tool:rect"@),
        ("c"@, false, false, "tool:circle"@),
        ("z"@, true, false, "action:undo"@),
        ("z"@, true, true, "action:redo"@),
        ("y"@, true, false, "action:redo"@),
        ("="@, true, false, "action:zoom-in"@),
        ("-"@, true, false, "action:zoom-out"@),
        ("0"@, true, false, "action:reset-zoom"@),
    ]
}

/// A binding matches a key press when the key and both modifiers agree.
pub open spec fn binding_matches(b: BindingModel, key: Seq<char>, ctrl: bool, shift: bool) -> bool {
    b.0 == key && b.1 == ctrl && b.2 == shift
}

/// The action of the first binding in `table` that matches the key press.
pub open spec fn first_match(table: Seq<BindingModel>, key: Seq<char>, ctrl: bool, shift: bool) -> Option<Seq<char>>
    decreases table.len(),
{
    if table.len() == 0 {
        None
    } else if binding_matches(table[0], key, ctrl, shift) {
        Some(table[0].3)
    } else {
        first_match(table.skip(1), key, ctrl, shift)
    }
}

impl Keybinding {
    /// A binding of a bare key.
    pub fn simple(key: &'static str, action: &'static str) -> (r: Self)
        ensures
            r@ == (key@, false, false, action@),
    {
        Keybinding { key, ctrl: false, shift: false, action }
    }

    /// A binding of Ctrl and a key.
    pub fn ctrl(key: &'static str, action: &'static str) -> (r: Self)
        ensures
            r@ == (key@, true, false, action@),
    {
        Keybinding { key, ctrl: true, shift: false, action }
    }

    /// A binding of Ctrl, Shift and a key.
    pub fn ctrl_shift(key: &'static str, action: &'static str) -> (r: Self)
        ensures
            r@ == (key@, true, true, action@),
    {
        Keybinding { key, ctrl: true, shift: true, action }
    }

    /// Whether a key press (its `key` value and modifier state) triggers this binding.
    pub fn matches(&self, key: &str, ctrl: bool, shift: bool) -> (r: bool)
        ensures
            r == binding_matches(self@, key@, ctrl, shift),
    {
        str_eq(key, self.key) && ctrl == self.ctrl && shift == self.shift
    }
}

/// All global keybindings. Evaluated top-to-bottom; first match wins.
pub fn keybindings() -> (r: Vec<Keybinding>)
    ensures
        r@.map_values(|b: Keybinding| b@) == binding_table(),
{
    let mut v: Vec<Keybinding> = Vec::new();
    // Clear cursor
    v.push(Keybinding::simple("Escape", "tool:pointer"));
    // Palette
    v.push(Keybinding::simple(" ", "ui:open-palette"));
    // Tools
    v.push(Keybinding::simple("q", "action:lock-tool"));
    v.push(Keybinding::simple("v", "tool:pan"));
    v.push(Keybinding::simple("p", "tool:pen"));
    v.push(Keybinding::simple("l", "tool:line"));
    v.push(Keybinding::simple("a", "tool:arrow"));
    v.push(Keybinding::simple("r", "tool:rect"));
    v.push(Keybinding::simple("c", "tool:circle"));
    // History
    v.push(Keybinding::ctrl("z", "action:undo"));
    v.push(Keybinding::ctrl_shift("z", "action:redo"));
    v.push(Keybinding::ctrl("y", "action:redo"));
    // Zoom
    v.push(Keybinding::ctrl("=", "action:zoom-in"));
    v.push(Keybinding::ctrl("-", "action:zoom-out"));
    v.push(Keybinding::ctrl("0", "action:reset-zoom"));
    assert(v@.map_values(|b: Keybinding| b@) =~= binding_table());
    v
}

/// The action bound to a key press, trying the bindings top-to-bottom.
pub fn action_for_key(key: &str, ctrl: bool, shift: bool) -> (r: Option<&'static str>)
    ensures
        match r {
            Some(a) => first_match(binding_table(), key@, ctrl, shift) == Some(a@),
            None => first_match(binding_table(), key@, ctrl, shift) is None,
        },
{
    let bindings = keybindings();
    let ghost table = binding_table();
    let mut i: usize = 0;
    assert(table.skip(0) =~= table);
    while i < bindings.len()
        invariant
            bindings@.map_values(|b: Keybinding| b@) == table,
            table == binding_table(),
            i <= bindings@.len(),
            first_match(table, key@, ctrl, shift) == first_match(table.skip(i as int), key@, ctrl, shift),
        decreases bindings@.len() - i,
    {
        let b = bindings[i];
        proof {
            assert(table[i as int] == b@);
            assert(table.skip(i as int)[0] == table[i as int]);
            assert(table.skip(i as int).skip(1) =~= table.skip(i + 1));
        }
        if b.matches(key, ctrl, shift) {
            return Some(b.action);
        }
        i += 1;
    }
    assert(table.skip(i as int).len() == 0);
    None
}

/// Every action has one key press, except redo, which has two (Ctrl+Shift+Z
/// and Ctrl+Y): no two other bindings trigger the same action.
pub proof fn law_one_binding_per_action()
    ensures
        forall|i: int, j: int|
            0 <= i < j < binding_table().len() && #[trigger] binding_table()[i].3 == #[trigger] binding_table()[j].3
                ==> binding_table()[i].3 == "action:redo"@,
{
    crate::ui::commands::lemma_fixed_actions_distinct();
    let t = binding_table();
    assert forall|i: int, j: int| 0 <= i < j < t.len() && #[trigger] t[i].3 == #[trigger] t[j].3 implies t[i].3
        == "action:redo"@ by {
        assert(0 <= i < 15 && 0 <= j < 15);
    }
}

/// A key press is answered by the first binding that matches it.
proof fn lemma_first_match_at(table: Seq<BindingModel>, key: Seq<char>, ctrl: bool, shift: bool, k: int)
    requires
        0 <= k < table.len(),
        binding_matches(table[k], key, ctrl, shift),
        forall|j: int| 0 <= j < k ==> !binding_matches(#[trigger] table[j], key, ctrl, shift),
    ensures
        first_match(table, key, ctrl, shift) == Some(table[k].3),
    decreases k,
{
    if k > 0 {
        let rest = table.skip(1);
        assert forall|j: int| 0 <= j < k - 1 implies !binding_matches(#[trigger] rest[j], key, ctrl, shift) by {
            assert(rest[j] == table[j + 1]);
        }
        assert(rest[k - 1] == table[k]);
        lemma_first_match_at(rest, key, ctrl, shift, k - 1);
    }
}

/// The zoom keys: Ctrl+= zooms in, Ctrl+- zooms out and Ctrl+0 resets the
/// zoom.
pub proof fn law_zoom_keys()
    ensures
        first_match(binding_table(), "="@, true, false) == Some("action:zoom-in"@),
        first_match(binding_table(), "-"@, true, false) == Some("action:zoom-out"@),
        first_match(binding_table(), "0"@, true, false) == Some("action:reset-zoom"@),
{
    reveal_strlit("z");
    reveal_strlit("y");
    reveal_strlit("=");
    reveal_strlit("-");
    reveal_strlit("0");
    let t = binding_table();
    assert(("z"@)[0] == 'z' && ("y"@)[0] == 'y' && ("="@)[0] == '=' && ("-"@)[0] == '-' && ("0"@)[0] == '0');
    assert forall|j: int| 0 <= j < 12 implies !binding_matches(#[trigger] t[j], "="@, true, false) by {
        assert(0 <= j < 12);
    }
    lemma_first_match_at(t, "="@, true, false, 12);
    assert forall|j: int| 0 <= j < 13 implies !binding_matches(#[trigger] t[j], "-"@, true, false) by {
        assert(("="@)[0] != ("-"@)[0]);
    }
    lemma_first_match_at(t, "-"@, true, false, 13);
    assert forall|j: int| 0 <= j < 14 implies !binding_matches(#[trigger] t[j], "0"@, true, false) by {
        assert(("="@)[0] != ("0"@)[0]);
        assert(("-"@)[0] != ("0"@)[0]);
    }
    lemma_first_match_at(t, "0"@, true, false, 14);
}

} // verus!
