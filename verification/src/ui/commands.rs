use vstd::prelude::*;

use crate::canvas::background::{is_kind_name, kind_of_name, BackgroundKind};
use crate::canvas::primitives::shape::ShapeKind;
use crate::canvas::tool::Tool;
use crate::text::{has_prefix, lowercase, skip_chars, starts_with, str_eq};
use crate::ui::color::{color_of_word, ChalkColor};

verus! {

/// What the application does for an action string from a button, the
/// palette or a keybinding.
#[derive(Debug)]
pub enum AppCommand {
    SetTool(Tool),
    Undo,
    Redo,
    Clear,
    DeleteSelection,
    ResetZoom,
    ZoomIn,
    ZoomOut,
    LockTool,
    ToggleDarkMode,
    TogglePalette,
    ToggleGenerationPalette,
    /// Set the drawing colour.
    SetColor(ChalkColor),
    /// Set the stroke width to the number written in the text.
    SetStrokeWidth(String),
    SetBackground(BackgroundKind),
    OpenRepository,
    DebugAction,
    /// A known action that asks for nothing (a colour with no name).
    Ignore,
    /// An action string that names no action.
    Unknown,
}

/// A command by its value: the stroke-width text as its characters.
pub enum CommandModel {
    SetTool(Tool),
    Undo,
    Redo,
    Clear,
    DeleteSelection,
    ResetZoom,
    ZoomIn,
    ZoomOut,
    LockTool,
    ToggleDarkMode,
    TogglePalette,
    ToggleGenerationPalette,
    SetColor(ChalkColor),
    SetStrokeWidth(Seq<char>),
    SetBackground(BackgroundKind),
    OpenRepository,
    DebugAction,
    Ignore,
    Unknown,
}

impl View for AppCommand {
    type V = CommandModel;

    open spec fn view(&self) -> CommandModel {
        match self {
            AppCommand::SetTool(t) => CommandModel::SetTool(*t),
            AppCommand::Undo => CommandModel::Undo,
            AppCommand::Redo => CommandModel::Redo,
            AppCommand::Clear => CommandModel::Clear,
            AppCommand::DeleteSelection => CommandModel::DeleteSelection,
            AppCommand::ResetZoom => CommandModel::ResetZoom,
            AppCommand::ZoomIn => CommandModel::ZoomIn,
            AppCommand::ZoomOut => CommandModel::ZoomOut,
            AppCommand::LockTool => CommandModel::LockTool,
            AppCommand::ToggleDarkMode => CommandModel::ToggleDarkMode,
            AppCommand::TogglePalette => CommandModel::TogglePalette,
            AppCommand::ToggleGenerationPalette => CommandModel::ToggleGenerationPalette,
            AppCommand::SetColor(c) => CommandModel::SetColor(*c),
            AppCommand::SetStrokeWidth(s) => CommandModel::SetStrokeWidth(s@),
            AppCommand::SetBackground(k) => CommandModel::SetBackground(*k),
            AppCommand::OpenRepository => CommandModel::OpenRepository,
            AppCommand::DebugAction => CommandModel::DebugAction,
            AppCommand::Ignore => CommandModel::Ignore,
            AppCommand::Unknown => CommandModel::Unknown,
        }
    }
}

/// `s` with every leading repetition of `p` removed (as `str::trim_start_matches`).
pub open spec fn trim_prefixes(s: Seq<char>, p: Seq<char>) -> Seq<char>
    decreases s.len(),
{
    if p.len() > 0 && has_prefix(s, p) {
        trim_prefixes(s.skip(p.len() as int), p)
    } else {
        s
    }
}

pub open spec fn color_prefix() -> Seq<char> {
    "action:set-color-"@
}

pub open spec fn stroke_prefix() -> Seq<char> {
    "action:set-stroke-"@
}

pub open spec fn canvas_prefix() -> Seq<char> {
    "action:set-canvas-"@
}

/// The command an action string stands for, when it names a fixed action.
pub open spec fn fixed_command(a: Seq<char>) -> Option<CommandModel> {
    if a == "tool:pan"@ {
        Some(CommandModel::SetTool(Tool::Pan))
    } else if a == "tool:pointer"@ {
        Some(CommandModel::SetTool(Tool::Pointer))
    } else if a == "tool:pen"@ {
        Some(CommandModel::SetTool(Tool::Pen))
    } else if a == "tool:line"@ {
        Some(CommandModel::SetTool(Tool::Shape(ShapeKind::Line)))
    } else if a == "tool:arrow"@ {
        Some(CommandModel::SetTool(Tool::Shape(ShapeKind::Arrow)))
    } else if a == "tool:rect"@ {
        Some(CommandModel::SetTool(Tool::Shape(ShapeKind::Rect)))
    } else if a == "tool:circle"@ {
        Some(CommandModel::SetTool(Tool::Shape(ShapeKind::Oval)))
    } else if a == "action:undo"@ {
        Some(CommandModel::Undo)
    } else if a == "action:redo"@ {
        Some(CommandModel::Redo)
    } else if a == "action:clear"@ {
        Some(CommandModel::Clear)
    } else if a == "action:delete-selection"@ {
        Some(CommandModel::DeleteSelection)
    } else if a == "action:reset-zoom"@ {
        Some(CommandModel::ResetZoom)
    } else if a == "action:zoom-in"@ {
        Some(CommandModel::ZoomIn)
    } else if a == "action:zoom-out"@ {
        Some(CommandModel::ZoomOut)
    } else if a == "action:lock-tool"@ {
        Some(CommandModel::LockTool)
    } else if a == "action:toggle-dark-mode"@ {
        Some(CommandModel::ToggleDarkMode)
    } else if a == "ui:open-palette"@ {
        Some(CommandModel::TogglePalette)
    } else if a == "ui:open-generation-palette"@ {
        Some(CommandModel::ToggleGenerationPalette)
    } else {
        None
    }
}

/// The command an action string stands for: a fixed action, a colour, a
/// stroke width or a background pattern named after its prefix, the
/// repository link, the debug action, or nothing known.
pub open spec fn command_of(a: Seq<char>) -> CommandModel {
    match fixed_command(a) {
        Some(c) => c,
        None => {
            if has_prefix(a, color_prefix()) {
                match color_of_word(lowercase(trim_prefixes(a, color_prefix()))) {
                    Some(c) => CommandModel::SetColor(c),
                    None => CommandModel::Ignore,
                }
            } else if has_prefix(a, stroke_prefix()) {
                CommandModel::SetStrokeWidth(trim_prefixes(a, stroke_prefix()))
            } else if has_prefix(a, canvas_prefix()) {
                CommandModel::SetBackground(kind_of_name(trim_prefixes(a, canvas_prefix())))
            } else if a == "action:open-github-repo"@ {
                CommandModel::OpenRepository
            } else if a == "debug:perform-action"@ {
                CommandModel::DebugAction
            } else {
                CommandModel::Unknown
            }
        },
    }
}

/// An action string has a meaning: a background action must name a pattern.
pub open spec fn command_defined(a: Seq<char>) -> bool {
    fixed_command(a) is None && !has_prefix(a, color_prefix()) && !has_prefix(a, stroke_prefix()) && has_prefix(
        a,
        canvas_prefix(),
    ) ==> is_kind_name(trim_prefixes(a, canvas_prefix()))
}

/// The fixed action strings are told apart by their length or by one of
/// their characters.
pub(crate) proof fn lemma_fixed_actions_distinct()
    ensures
        ("tool:pan"@).len() == 8,
        ("tool:pointer"@).len() == 12,
        ("tool:pen"@).len() == 8,
        ("tool:line"@).len() == 9,
        ("tool:arrow"@).len() == 10,
        ("tool:rect"@).len() == 9,
        ("tool:circle"@).len() == 11,
        ("action:undo"@).len() == 11,
        ("action:redo"@).len() == 11,
        ("action:clear"@).len() == 12,
        ("action:delete-selection"@).len() == 23,
        ("action:reset-zoom"@).len() == 17,
        ("action:zoom-in"@).len() == 14,
        ("action:zoom-out"@).len() == 15,
        ("action:lock-tool"@).len() == 16,
        ("action:toggle-dark-mode"@).len() == 23,
        ("ui:open-palette"@).len() == 15,
        ("ui:open-generation-palette"@).len() == 26,
        ("tool:pan"@)[6] == 'a' && ("tool:pen"@)[6] == 'e',
        ("tool:pointer"@)[0] == 't' && ("action:clear"@)[0] == 'a',
        ("tool:line"@)[5] == 'l' && ("tool:rect"@)[5] == 'r',
        ("tool:circle"@)[0] == 't' && ("action:undo"@)[0] == 'a' && ("action:redo"@)[0] == 'a',
        ("action:undo"@)[7] == 'u' && ("action:redo"@)[7] == 'r',
        ("action:delete-selection"@)[7] == 'd' && ("action:toggle-dark-mode"@)[7] == 't',
        ("action:zoom-out"@)[0] == 'a' && ("ui:open-palette"@)[0] == 'u',
{
    reveal_strlit("tool:pan");
    reveal_strlit("tool:pointer");
    reveal_strlit("tool:pen");
    reveal_strlit("tool:line");
    reveal_strlit("tool:arrow");
    reveal_strlit("tool:rect");
    reveal_strlit("tool:circle");
    reveal_strlit("action:undo");
    reveal_strlit("action:redo");
    reveal_strlit("action:clear");
    reveal_strlit("action:delete-selection");
    reveal_strlit("action:reset-zoom");
    reveal_strlit("action:zoom-in");
    reveal_strlit("action:zoom-out");
    reveal_strlit("action:lock-tool");
    reveal_strlit("action:toggle-dark-mode");
    reveal_strlit("ui:open-palette");
    reveal_strlit("ui:open-generation-palette");
}

/// Different fixed action strings stand for different commands: whatever a
/// fixed action does, no other action string does the same.
pub proof fn law_fixed_commands_distinct(a: Seq<char>, b: Seq<char>)
    requires
        fixed_command(a) is Some,
        fixed_command(a) == fixed_command(b),
    ensures
        a == b,
{
}

/// "action:undo" undoes and "action:redo" redoes, and no other fixed action
/// string does either.
pub proof fn law_undo_redo_actions(a: Seq<char>)
    ensures
        command_of("action:undo"@) == CommandModel::Undo,
        command_of("action:redo"@) == CommandModel::Redo,
        fixed_command(a) == Some(CommandModel::Undo) ==> a == "action:undo"@,
        fixed_command(a) == Some(CommandModel::Redo) ==> a == "action:redo"@,
{
    lemma_fixed_actions_distinct();
}

/// Every keybinding triggers a fixed action of the application.
pub proof fn law_keybindings_name_commands()
    ensures
        forall|i: int| 0 <= i < crate::ui::keybindings::binding_table().len()
            ==> #[trigger] fixed_command(crate::ui::keybindings::binding_table()[i].3) is Some,
{
    lemma_fixed_actions_distinct();
    let t = crate::ui::keybindings::binding_table();
    assert forall|i: int| 0 <= i < t.len() implies #[trigger] fixed_command(t[i].3) is Some by {
        assert(0 <= i < 15);
    }
}

/// Every item of the command palette runs a fixed action of the application.
pub proof fn law_palette_items_name_commands()
    ensures
        forall|i: int| 0 <= i < crate::ui::palette::palette_table().len()
            ==> #[trigger] fixed_command(crate::ui::palette::palette_table()[i].2) is Some,
{
    lemma_fixed_actions_distinct();
    let t = crate::ui::palette::palette_table();
    assert forall|i: int| 0 <= i < t.len() implies #[trigger] fixed_command(t[i].2) is Some by {
        assert(0 <= i < 12);
    }
}

/// Removes every leading repetition of `p` from `s`.
pub fn trim_start_matches<'a>(s: &'a str, p: &str) -> (r: &'a str)
    requires
        p@.len() > 0,
    ensures
        r@ == trim_prefixes(s@, p@),
{
    let n = p.unicode_len();
    let mut rest = s;
    while starts_with(rest, p)
        invariant
            n == p@.len(),
            n > 0,
            trim_prefixes(s@, p@) == trim_prefixes(rest@, p@),
        decreases rest@.len(),
    {
        rest = skip_chars(rest, n);
    }
    rest
}

fn fixed_command_of(a: &str) -> (r: Option<AppCommand>)
    ensures
        match r {
            Some(c) => fixed_command(a@) == Some(c@),
            None => fixed_command(a@) is None,
        },
{
    if str_eq(a, "tool:pan") {
        Some(AppCommand::SetTool(Tool::Pan))
    } else if str_eq(a, "tool:pointer") {
        Some(AppCommand::SetTool(Tool::Pointer))
    } else if str_eq(a, "tool:pen") {
        Some(AppCommand::SetTool(Tool::Pen))
    } else if str_eq(a, "tool:line") {
        Some(AppCommand::SetTool(Tool::Shape(ShapeKind::Line)))
    } else if str_eq(a, "tool:arrow") {
        Some(AppCommand::SetTool(Tool::Shape(ShapeKind::Arrow)))
    } else if str_eq(a, "tool:rect") {
        Some(AppCommand::SetTool(Tool::Shape(ShapeKind::Rect)))
    } else if str_eq(a, "tool:circle") {
        Some(AppCommand::SetTool(Tool::Shape(ShapeKind::Oval)))
    } else if str_eq(a, "action:undo") {
        Some(AppCommand::Undo)
    } else if str_eq(a, "action:redo") {
        Some(AppCommand::Redo)
    } else if str_eq(a, "action:clear") {
        Some(AppCommand::Clear)
    } else if str_eq(a, "action:delete-selection") {
        Some(AppCommand::DeleteSelection)
    } else if str_eq(a, "action:reset-zoom") {
        Some(AppCommand::ResetZoom)
    } else if str_eq(a, "action:zoom-in") {
        Some(AppCommand::ZoomIn)
    } else if str_eq(a, "action:zoom-out") {
        Some(AppCommand::ZoomOut)
    } else if str_eq(a, "action:lock-tool") {
        Some(AppCommand::LockTool)
    } else if str_eq(a, "action:toggle-dark-mode") {
        Some(AppCommand::ToggleDarkMode)
    } else if str_eq(a, "ui:open-palette") {
        Some(AppCommand::TogglePalette)
    } else if str_eq(a, "ui:open-generation-palette") {
        Some(AppCommand::ToggleGenerationPalette)
    } else {
        None
    }
}

/// The command an action string stands for.
pub fn parse_action(action: &str) -> (r: AppCommand)
    requires
        command_defined(action@),
    ensures
        r@ == command_of(action@),
{
    proof {
        reveal_strlit("action:set-color-");
        reveal_strlit("action:set-stroke-");
        reveal_strlit("action:set-canvas-");
    }
    match fixed_command_of(action) {
        Some(c) => c,
        None => {
            if starts_with(action, "action:set-color-") {
                let word = trim_start_matches(action, "action:set-color-");
                match ChalkColor::from_word(word) {
                    Some(c) => AppCommand::SetColor(c),
                    None => AppCommand::Ignore,
                }
            } else if starts_with(action, "action:set-stroke-") {
                let width = trim_start_matches(action, "action:set-stroke-");
                AppCommand::SetStrokeWidth(String::from_str(width))
            } else if starts_with(action, "action:set-canvas-") {
                let name = trim_start_matches(action, "action:set-canvas-");
                AppCommand::SetBackground(BackgroundKind::from_name(name))
            } else if str_eq(action, "action:open-github-repo") {
                AppCommand::OpenRepository
            } else if str_eq(action, "debug:perform-action") {
                AppCommand::DebugAction
            } else {
                AppCommand::Unknown
            }
        },
    }
}

/// The zoom percentage that resetting the zoom returns to.
pub fn reset_zoom_percent() -> (r: u32)
    ensures
        r == 100,
{
    100
}

/// The zoom percentage one step in: ten points more, at most 3000.
pub fn zoom_in(percent: u32) -> (r: u32)
    requires
        percent <= u32::MAX - 10,
    ensures
        r == if percent + 10 < 3000 { percent + 10 } else { 3000 },
{
    let z = percent + 10;
    if z < 3000 {
        z
    } else {
        3000
    }
}

/// The zoom percentage one step out: ten points less, at least 10.
pub fn zoom_out(percent: u32) -> (r: u32)
    requires
        percent >= 10,
    ensures
        r == if percent - 10 > 10 { percent - 10 } else { 10 },
{
    let z = percent - 10;
    if z > 10 {
        z
    } else {
        10
    }
}

/// Zooming in or out keeps a zoom percentage between 10 and 3000 within
/// those bounds.
pub proof fn law_zoom_steps_stay_in_range(percent: u32)
    requires
        10 <= percent <= 3000,
    ensures
        10 <= (if percent + 10 < 3000 { percent + 10 } else { 3000 }) <= 3000,
        10 <= (if percent - 10 > 10 { percent - 10 } else { 10 }) <= 3000,
{
}

} // verus!
