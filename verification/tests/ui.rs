use chalk::canvas::background::BackgroundKind;
use chalk::canvas::primitives::handle::HandleKind;
use chalk::canvas::primitives::shape::{ShapeInProgress, ShapeKind};
use chalk::canvas::styles::ChalkStyles;
use chalk::canvas::tool::{canvas_cursor, Tool};
use chalk::text::{contains, int_to_string, nat_to_string, starts_with, str_eq};
use chalk::ui::color::{color_of_lower_word, colors, ChalkColor};
use chalk::ui::commands::{parse_action, reset_zoom_percent, trim_start_matches, zoom_in, zoom_out, AppCommand};
use chalk::ui::keybindings::{action_for_key, keybindings, Keybinding};
use chalk::ui::layout::{tool_button_active, Activation, Anchor, BoxConfig, BoxKind, Direction, Label, PanelConfig};
use chalk::ui::palette::{clamp_selected, filter_items, item_shown, palette_items, palette_key, PaletteKey};
use chalk::utils::favicon_for;

#[test]
fn background_cycles_and_names() {
    assert_eq!(BackgroundKind::Blank.next(), BackgroundKind::Dots);
    assert_eq!(BackgroundKind::Dots.next(), BackgroundKind::Grid);
    assert_eq!(BackgroundKind::Grid.next(), BackgroundKind::Blank);
    assert_eq!(BackgroundKind::Grid.next().next().next(), BackgroundKind::Grid);
    assert_eq!(BackgroundKind::from_name("dots"), BackgroundKind::Dots);
    assert_eq!(BackgroundKind::from_name("grid"), BackgroundKind::Grid);
    assert_eq!(BackgroundKind::from_name("none"), BackgroundKind::Blank);
}

#[test]
fn themes_and_toggle() {
    let mut s = ChalkStyles::light();
    assert!(s.is_light() && !s.is_dark());
    assert_eq!(s.get_bg(), "#1A1A18");
    assert_eq!(s.get_canvas_bg_color(), "rgba(242,240,239,0.25)");
    s.canvas_bg = BackgroundKind::Dots;
    s.toggle();
    assert!(s.is_dark());
    assert_eq!(s.get_bg(), "#F2F0EF");
    assert_eq!(s.get_canvas_bg_color(), "rgba(26,26,24,0.20)");
    assert_eq!(s.canvas_bg, BackgroundKind::Dots);
    s.toggle();
    assert!(s.is_light());
    assert_eq!(s.get_bg(), "#1A1A18");
    assert_eq!(s.canvas_bg, BackgroundKind::Dots);
    let d = ChalkStyles::dark();
    assert!(d.is_dark());
    assert_eq!(d.canvas_bg, BackgroundKind::Blank);
}

#[test]
fn tool_labels_and_cursors() {
    assert_eq!(Tool::Pan.label(), "pan");
    assert_eq!(Tool::Pointer.label(), "pointer");
    assert_eq!(Tool::Pen.label(), "pen");
    assert_eq!(Tool::Shape(ShapeKind::Line).label(), "line");
    assert_eq!(Tool::Shape(ShapeKind::Arrow).label(), "arrow");
    assert_eq!(Tool::Shape(ShapeKind::Rect).label(), "rect");
    assert_eq!(Tool::Shape(ShapeKind::Oval).label(), "circle");
    assert_eq!(Tool::Pan.cursor(), "grab");
    assert_eq!(Tool::Pen.cursor(), "crosshair");
    assert_eq!(Tool::Pointer.cursor(), "crosshair");
    assert_eq!(Tool::default(), Tool::Pen);
}

#[test]
fn handle_axes_and_cursors() {
    assert_eq!(HandleKind::TopLeft.axes(), (true, true, true, true));
    assert_eq!(HandleKind::Top.axes(), (false, false, true, true));
    assert_eq!(HandleKind::BottomRight.axes(), (true, false, true, false));
    assert_eq!(HandleKind::Left.axes(), (true, true, false, false));
    assert_eq!(HandleKind::TopLeft.cursor(), "nwse-resize");
    assert_eq!(HandleKind::BottomLeft.cursor(), "nesw-resize");
    assert_eq!(HandleKind::Bottom.cursor(), "ns-resize");
    assert_eq!(HandleKind::Right.cursor(), "ew-resize");
    assert_eq!(HandleKind::PivotEnd.cursor(), "move");
    let all = HandleKind::all();
    assert_eq!(all.len(), 8);
    assert_eq!(all[0], HandleKind::TopLeft);
    assert_eq!(all[7], HandleKind::BottomRight);
    assert!(!all.contains(&HandleKind::PivotStart));
}

#[test]
fn shape_in_progress_starts_at_anchor() {
    let s = ShapeInProgress::new(ShapeKind::Oval, (3.0, 4.0));
    assert_eq!(s.kind, ShapeKind::Oval);
    assert_eq!(s.anchor, (3.0, 4.0));
    assert_eq!(s.current, (3.0, 4.0));
}

#[test]
fn color_hex_parsing() {
    assert_eq!(ChalkColor::from_hex("#FF0000"), Some(ChalkColor { r: 255, g: 0, b: 0 }));
    assert_eq!(ChalkColor::from_hex("e24b4a"), Some(ChalkColor { r: 226, g: 75, b: 74 }));
    assert_eq!(ChalkColor::from_hex("##0a0B0c"), Some(ChalkColor { r: 10, g: 11, b: 12 }));
    assert_eq!(ChalkColor::from_hex("#+f+f+f"), Some(ChalkColor { r: 15, g: 15, b: 15 }));
    assert_eq!(ChalkColor::from_hex("#FFF"), None);
    assert_eq!(ChalkColor::from_hex("#GG0000"), None);
    assert_eq!(ChalkColor::from_hex("#FF00000"), None);
    assert_eq!(ChalkColor::from_hex(""), None);
    assert_eq!(ChalkColor::from_hex("#-10000"), None);
}

#[test]
fn color_hex_printing_and_roundtrip() {
    let c = ChalkColor::from_rgb(226, 75, 74);
    assert_eq!(c.to_hex(), "#E24B4A");
    assert_eq!(ChalkColor::new().to_hex(), "#000000");
    assert_eq!(ChalkColor::from_rgb(255, 255, 255).to_hex(), "#FFFFFF");
    for (r, g, b) in [(0u8, 1u8, 2u8), (17, 160, 255), (9, 10, 171)] {
        let c = ChalkColor::from_rgb(r, g, b);
        assert_eq!(ChalkColor::from_hex(&c.to_hex()), Some(c));
    }
}

#[test]
fn color_words() {
    assert_eq!(ChalkColor::from_word("red"), Some(ChalkColor::from_rgb(226, 75, 74)));
    assert_eq!(ChalkColor::from_word("BLUE"), Some(ChalkColor::from_rgb(55, 138, 221)));
    assert_eq!(ChalkColor::from_word("Green"), Some(ChalkColor::from_rgb(74, 181, 87)));
    assert_eq!(ChalkColor::from_word("white"), Some(ChalkColor::from_rgb(255, 255, 255)));
    assert_eq!(ChalkColor::from_word("black"), Some(ChalkColor::new()));
    assert_eq!(ChalkColor::from_word("purple"), None);
    for entry in colors() {
        assert_eq!(ChalkColor::from_word(entry.name), Some(entry.color));
    }
    assert_eq!(colors().len(), 5);
}

#[test]
fn text_helpers() {
    assert!(str_eq("abc", "abc"));
    assert!(!str_eq("abc", "abd"));
    assert!(starts_with("action:undo", "action:"));
    assert!(!starts_with("act", "action:"));
    assert!(contains("reset zoom", "zoom"));
    assert!(contains("abc", ""));
    assert!(!contains("abc", "abcd"));
    assert_eq!(nat_to_string(0), "0");
    assert_eq!(nat_to_string(1234567890), "1234567890");
    assert_eq!(int_to_string(-20), "-20");
    assert_eq!(int_to_string(i64::MIN), "-9223372036854775808");
    assert_eq!(trim_start_matches("xxab", "x"), "ab");
}

#[test]
fn anchor_css() {
    assert_eq!(Anchor::TopLeft.to_css((20, 16)), "top:16px;left:20px;");
    assert_eq!(
        Anchor::TopCenter.to_css((0, 16)),
        "top:16px;left:50%;transform:translateX(-50%) translateX(0px);"
    );
    assert_eq!(Anchor::TopRight.to_css((-20, 20)), "top:20px;right:20px;");
    assert_eq!(Anchor::BottomLeft.to_css((20, -20)), "bottom:20px;left:20px;");
    assert_eq!(
        Anchor::BottomCenter.to_css((5, -7)),
        "bottom:7px;left:50%;transform:translateX(-50%) translateX(5px);"
    );
    assert_eq!(Anchor::BottomRight.to_css((-20, -20)), "bottom:20px;right:20px;");
    assert_eq!(
        Anchor::CenterLeft.to_css((20, 0)),
        "top:50%;left:20px;transform:translateY(-50%) translateY(0px);"
    );
    assert_eq!(
        Anchor::CenterRight.to_css((-3, 4)),
        "top:50%;right:3px;transform:translateY(-50%) translateY(4px);"
    );
    assert_eq!(
        Anchor::Center.to_css((1, -2)),
        "top:50%;left:50%;transform:translate(-50%,-50%) translate(1px,-2px);"
    );
    assert_eq!(Direction::Row.to_flex_css(), "row");
    assert_eq!(Direction::Column.to_flex_css(), "column");
}

#[test]
fn panel_and_box_builders() {
    let p: PanelConfig<u8> = PanelConfig::new("toolbar", Anchor::TopCenter)
        .offset(0, 16)
        .direction(Direction::Column)
        .gap(2)
        .padding(6)
        .add(BoxConfig::icon_button("tool-pen", "tool-pen-icon", "/icons/pencil.svg", "tool:pen").with_hint("p"))
        .add(BoxConfig::divider())
        .add(BoxConfig::button("zoom", Label::Static("100%"), "action:reset-zoom"))
        .add(BoxConfig::label("hint", Label::Dynamic(7u8)))
        .add(BoxConfig::swatch("color-red", "#E24B4A", "action:set-color-red"))
        .add(BoxConfig::stroke_width("stroke-2", 2, "action:set-stroke-2"))
        .add(BoxConfig::icon_dropdown(Activation::Click, "bg", "bg-icon", "/icons/bg.svg", vec![BoxConfig::divider()]));
    assert_eq!(p.id, "toolbar");
    assert_eq!(p.anchor, Anchor::TopCenter);
    assert_eq!(p.offset, (0, 16));
    assert_eq!(p.direction, Direction::Column);
    assert_eq!((p.gap, p.padding), (2, 6));
    assert_eq!(p.children.len(), 7);
    let pen = &p.children[0];
    assert_eq!(pen.hint, Some("p"));
    assert!(matches!(pen.kind, BoxKind::Button { action: "tool:pen" }));
    let icon = &pen.children.as_ref().unwrap()[0];
    assert_eq!(icon.id, "tool-pen-icon");
    assert!(matches!(icon.kind, BoxKind::Image { src: "/icons/pencil.svg" }));
    assert_eq!(p.children[1].id, "divider");
    assert!(matches!(p.children[1].kind, BoxKind::Divider));
    assert!(matches!(p.children[2].label, Some(Label::Static("100%"))));
    assert!(matches!(p.children[3].label, Some(Label::Dynamic(7))));
    assert!(matches!(p.children[4].kind, BoxKind::Swatch { color: "#E24B4A", .. }));
    assert!(matches!(p.children[5].kind, BoxKind::StrokeWidth { width: 2, .. }));
    assert!(matches!(p.children[6].kind, BoxKind::Dropdown { activation: Activation::Click, .. }));
    assert_eq!(p.children[6].children.as_ref().unwrap().len(), 1);
    let d: PanelConfig<u8> = PanelConfig::new("x", Anchor::Center);
    assert_eq!((d.offset, d.direction, d.gap, d.padding), ((0, 0), Direction::Row, 8, 8));
}

#[test]
fn keybinding_lookup() {
    assert_eq!(action_for_key("z", true, false), Some("action:undo"));
    assert_eq!(action_for_key("z", true, true), Some("action:redo"));
    assert_eq!(action_for_key("y", true, false), Some("action:redo"));
    assert_eq!(action_for_key("Escape", false, false), Some("tool:pointer"));
    assert_eq!(action_for_key(" ", false, false), Some("ui:open-palette"));
    assert_eq!(action_for_key("0", true, false), Some("action:reset-zoom"));
    assert_eq!(action_for_key("z", false, false), None);
    assert_eq!(action_for_key("Z", true, false), None);
    assert_eq!(action_for_key("q", false, true), None);
    assert_eq!(keybindings().len(), 15);
    let k = Keybinding::ctrl_shift("z", "action:redo");
    assert!(k.matches("z", true, true));
    assert!(!k.matches("z", true, false));
    assert!(Keybinding::simple("v", "tool:pan").matches("v", false, false));
    assert!(Keybinding::ctrl("y", "action:redo").ctrl);
}

#[test]
fn every_binding_and_palette_action_is_known() {
    for b in keybindings() {
        assert!(!matches!(parse_action(b.action), AppCommand::Unknown | AppCommand::Ignore));
    }
    for it in palette_items() {
        assert!(!matches!(parse_action(it.action), AppCommand::Unknown | AppCommand::Ignore));
    }
}

#[test]
fn action_parsing() {
    assert!(matches!(parse_action("tool:pan"), AppCommand::SetTool(Tool::Pan)));
    assert!(matches!(parse_action("tool:circle"), AppCommand::SetTool(Tool::Shape(ShapeKind::Oval))));
    assert!(matches!(parse_action("action:undo"), AppCommand::Undo));
    assert!(matches!(parse_action("action:delete-selection"), AppCommand::DeleteSelection));
    assert!(matches!(parse_action("ui:open-generation-palette"), AppCommand::ToggleGenerationPalette));
    match parse_action("action:set-color-RED") {
        AppCommand::SetColor(c) => assert_eq!(c, ChalkColor::from_rgb(226, 75, 74)),
        _ => panic!("expected a colour"),
    }
    assert!(matches!(parse_action("action:set-color-purple"), AppCommand::Ignore));
    match parse_action("action:set-stroke-4") {
        AppCommand::SetStrokeWidth(w) => assert_eq!(w, "4"),
        _ => panic!("expected a stroke width"),
    }
    match parse_action("action:set-stroke-action:set-stroke-8") {
        AppCommand::SetStrokeWidth(w) => assert_eq!(w, "8"),
        _ => panic!("expected a stroke width"),
    }
    assert!(matches!(parse_action("action:set-canvas-grid"), AppCommand::SetBackground(BackgroundKind::Grid)));
    assert!(matches!(parse_action("action:set-canvas-none"), AppCommand::SetBackground(BackgroundKind::Blank)));
    assert!(matches!(parse_action("action:open-github-repo"), AppCommand::OpenRepository));
    assert!(matches!(parse_action("debug:perform-action"), AppCommand::DebugAction));
    assert!(matches!(parse_action("nonsense"), AppCommand::Unknown));
    assert!(matches!(parse_action(""), AppCommand::Unknown));
}

#[test]
fn zoom_steps() {
    assert_eq!(zoom_in(100), 110);
    assert_eq!(zoom_in(2995), 3000);
    assert_eq!(zoom_in(3000), 3000);
    assert_eq!(zoom_out(100), 90);
    assert_eq!(zoom_out(15), 10);
    assert_eq!(zoom_out(10), 10);
}

#[test]
fn palette_filtering() {
    let items = palette_items();
    assert_eq!(items.len(), 12);
    assert_eq!(filter_items(&items, "").len(), 12);
    let tools = filter_items(&items, "TOOL");
    assert_eq!(tools.len(), 6);
    assert_eq!(tools[0].label, "Pan");
    let zoom = filter_items(&items, "zoom");
    assert_eq!(zoom.len(), 1);
    assert_eq!(zoom[0].action, "action:reset-zoom");
    let re = filter_items(&items, "re");
    let labels: Vec<&str> = re.iter().map(|i| i.label).collect();
    assert_eq!(labels, vec!["Rect", "Redo", "Reset Zoom"]);
    assert!(filter_items(&items, "xyz").is_empty());
}

#[test]
fn palette_keys() {
    assert_eq!(palette_key("Escape", 0, 3), PaletteKey::Close);
    assert_eq!(palette_key("ArrowDown", 0, 3), PaletteKey::Select(1));
    assert_eq!(palette_key("ArrowDown", 2, 3), PaletteKey::Select(0));
    assert_eq!(palette_key("ArrowUp", 0, 3), PaletteKey::Select(2));
    assert_eq!(palette_key("ArrowUp", 2, 3), PaletteKey::Select(1));
    assert_eq!(palette_key("ArrowDown", 0, 0), PaletteKey::Consume);
    assert_eq!(palette_key("Enter", 1, 3), PaletteKey::Commit(1));
    assert_eq!(palette_key("Enter", 0, 0), PaletteKey::Consume);
    assert_eq!(palette_key("a", 0, 3), PaletteKey::Pass);
    assert_eq!(clamp_selected(5, 3), 2);
    assert_eq!(clamp_selected(1, 3), 1);
    assert_eq!(clamp_selected(4, 0), 0);
}

#[test]
fn favicon_choice() {
    assert_eq!(favicon_for(true), "public/icons/chalkboard-dark.svg");
    assert_eq!(favicon_for(false), "public/icons/chalkboard-light.svg");
}

#[test]
fn lower_words_name_colours() {
    assert_eq!(color_of_lower_word("red"), Some(ChalkColor::from_rgb(226, 75, 74)));
    assert_eq!(color_of_lower_word("blue"), Some(ChalkColor::from_rgb(55, 138, 221)));
    // Only lowercase words are matched here; `from_word` lowercases first.
    assert_eq!(color_of_lower_word("Red"), None);
    assert_eq!(ChalkColor::from_word("Red"), Some(ChalkColor::from_rgb(226, 75, 74)));
    assert_eq!(color_of_lower_word("pink"), None);
}

#[test]
fn palette_rows_shown_for_lowercased_text() {
    assert!(item_shown("pan", "tool", ""));
    assert!(item_shown("pan", "tool", "an"));
    assert!(item_shown("pan", "tool", "oo"));
    assert!(!item_shown("pan", "tool", "x"));
    assert!(!item_shown("pan", "tool", "PAN"));
}

#[test]
fn reset_zoom_is_one_hundred_percent() {
    assert_eq!(reset_zoom_percent(), 100);
}

#[test]
fn palette_keys_at_the_largest_index() {
    assert_eq!(palette_key("Escape", usize::MAX, 3), PaletteKey::Close);
    assert_eq!(palette_key("ArrowUp", usize::MAX, 3), PaletteKey::Select(usize::MAX - 1));
    assert_eq!(palette_key("Enter", usize::MAX, 3), PaletteKey::Consume);
    assert_eq!(palette_key("ArrowDown", usize::MAX, 0), PaletteKey::Consume);
}

#[test]
fn toolbar_buttons_pressed() {
    assert!(tool_button_active("tool-pen", Tool::Pen, false));
    assert!(!tool_button_active("tool-pen", Tool::Pan, false));
    assert!(tool_button_active("tool-circle", Tool::Shape(ShapeKind::Oval), false));
    assert!(tool_button_active("tool-lock", Tool::Pan, true));
    assert!(!tool_button_active("tool-lock", Tool::Pan, false));
    assert!(!tool_button_active("zoom-in", Tool::Pen, true));
}

#[test]
fn canvas_cursor_choice() {
    assert_eq!(canvas_cursor(Tool::Pointer, Some(HandleKind::Top)), "ns-resize");
    assert_eq!(canvas_cursor(Tool::Pointer, None), "crosshair");
    assert_eq!(canvas_cursor(Tool::Pan, Some(HandleKind::Top)), "grab");
    assert_eq!(canvas_cursor(Tool::Pen, None), "crosshair");
}
