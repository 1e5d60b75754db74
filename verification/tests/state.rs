use chalk::canvas::action::ChalkAction;
use chalk::canvas::drawing::ActiveDrawing;
use chalk::canvas::primitives::handle::HandleKind;
use chalk::canvas::background::BackgroundKind;
use chalk::canvas::primitives::geometry::Geometry;
use chalk::canvas::primitives::shape::ShapeKind;
use chalk::canvas::primitives::style::PrimitiveStyle;
use chalk::canvas::primitives::transform::Transform;
use chalk::canvas::primitives::Primitive;
use chalk::canvas::state::{single_or_batch, WhiteboardState};
use chalk::canvas::tool::Tool;
use chalk::canvas::types::ViewTransform;
use chalk::ui::color::ChalkColor;

fn board() -> WhiteboardState<f64> {
    WhiteboardState::new(
        ViewTransform { offset_x: 0.0, offset_y: 0.0, zoom: 1.0 },
        PrimitiveStyle::new(String::from("#FF0000"), 2.0),
    )
}

fn rect(x: f64, stroked: bool) -> Primitive<f64> {
    let style = PrimitiveStyle::new(String::from("#F2F0EF"), 2.0);
    let style = if stroked { style } else { style.with_no_stroke() };
    Primitive {
        geometry: Geometry::Rect { origin: (x, 0.0), size: (5.0, 5.0) },
        style,
        transform: Transform { position: (0.0, 0.0), rotation: 0.0, scale: 1.0 },
    }
}

fn board_with(n: usize) -> WhiteboardState<f64> {
    let mut s = board();
    for i in 0..n {
        s.history.apply(&mut s.document, ChalkAction::Add { primitive: rect(i as f64, true) });
    }
    s
}

fn origins(s: &WhiteboardState<f64>) -> Vec<f64> {
    s.document
        .iter()
        .map(|p| match p.geometry {
            Geometry::Rect { origin, .. } => origin.0,
            _ => -1.0,
        })
        .collect()
}

#[test]
fn new_board_defaults() {
    let s = board();
    assert!(s.document.is_empty());
    assert!(s.selected.is_empty());
    assert_eq!(s.tool, Tool::Pen);
    assert!(s.style.is_dark());
    assert_eq!(s.background_pattern, BackgroundKind::Blank);
    assert!(!s.is_drawing);
}

#[test]
fn delete_selected_then_undo_restores() {
    let mut s = board_with(5);
    s.selected.insert(1);
    s.selected.insert(3);
    s.selected.insert(4);
    s.delete_selected();
    assert_eq!(origins(&s), vec![0.0, 2.0]);
    assert!(s.selected.is_empty());
    s.undo();
    assert_eq!(origins(&s), vec![0.0, 1.0, 2.0, 3.0, 4.0]);
    s.redo();
    assert_eq!(origins(&s), vec![0.0, 2.0]);
}

#[test]
fn delete_with_nothing_selected_does_nothing() {
    let mut s = board_with(2);
    s.delete_selected();
    assert_eq!(origins(&s), vec![0.0, 1.0]);
    s.undo();
    assert_eq!(origins(&s), vec![0.0]);
}

#[test]
fn set_stroke_color_recolors_stroked_selection() {
    let mut s = board();
    s.history.apply(&mut s.document, ChalkAction::Add { primitive: rect(0.0, true) });
    s.history.apply(&mut s.document, ChalkAction::Add { primitive: rect(1.0, false) });
    s.history.apply(&mut s.document, ChalkAction::Add { primitive: rect(2.0, true) });
    s.selected.insert(1);
    s.selected.insert(2);
    s.set_stroke_color(ChalkColor::from_rgb(55, 138, 221));
    assert_eq!(s.current_style.stroke_color.as_deref(), Some("#378ADD"));
    assert_eq!(s.document[0].style.stroke_color.as_deref(), Some("#F2F0EF"));
    assert_eq!(s.document[1].style.stroke_color, None);
    assert_eq!(s.document[2].style.stroke_color.as_deref(), Some("#378ADD"));
    s.undo();
    assert_eq!(s.document[2].style.stroke_color.as_deref(), Some("#F2F0EF"));
    assert_eq!(s.document.len(), 3);
}

#[test]
fn set_stroke_color_without_selection_only_changes_current_style() {
    let mut s = board_with(1);
    s.set_stroke_color(ChalkColor::from_rgb(0, 0, 0));
    assert_eq!(s.current_style.stroke_color.as_deref(), Some("#000000"));
    assert_eq!(s.document[0].style.stroke_color.as_deref(), Some("#F2F0EF"));
    s.undo();
    assert!(s.document.is_empty());
}

#[test]
fn set_stroke_width_then_undo() {
    let mut s = board_with(3);
    s.selected.insert(0);
    s.selected.insert(2);
    s.set_stroke_width(8.0);
    assert_eq!(s.current_style.stroke_width, 8.0);
    let widths: Vec<f64> = s.document.iter().map(|p| p.style.stroke_width).collect();
    assert_eq!(widths, vec![8.0, 2.0, 8.0]);
    s.undo();
    let widths: Vec<f64> = s.document.iter().map(|p| p.style.stroke_width).collect();
    assert_eq!(widths, vec![2.0, 2.0, 2.0]);
}

#[test]
fn clear_then_undo_restores_board() {
    let mut s = board_with(3);
    s.clear();
    assert!(s.document.is_empty());
    assert!(s.active.is_none());
    s.undo();
    assert_eq!(origins(&s), vec![0.0, 1.0, 2.0]);
}

#[test]
fn set_tool_cancels_selection_and_drags() {
    let mut s = board_with(2);
    s.selected.insert(0);
    s.is_drawing = true;
    s.drag_start_transforms.insert(0, (1.0, 1.0));
    s.drag_start_world = Some((3.0, 4.0));
    s.set_tool(Tool::Shape(ShapeKind::Rect));
    assert_eq!(s.tool, Tool::Shape(ShapeKind::Rect));
    assert!(s.selected.is_empty());
    assert!(!s.is_drawing);
    assert!(s.drag_start_transforms.is_empty());
    assert!(s.drag_start_world.is_none());
    assert_eq!(s.document.len(), 2);
}

#[test]
fn click_selection_rules() {
    let mut s = board_with(3);
    assert!(s.apply_selection_hit(Some(1), false, false));
    assert!(s.selected.contains(&1) && s.selected.len() == 1);
    // ctrl adds and removes
    assert!(s.apply_selection_hit(Some(2), false, true));
    assert_eq!(s.selected.len(), 2);
    assert!(s.apply_selection_hit(Some(2), false, true));
    assert_eq!(s.selected.len(), 1);
    // a click inside the selection bounds keeps the selection
    assert!(s.apply_selection_hit(Some(0), true, false));
    assert!(s.selected.contains(&1) && s.selected.len() == 1);
    // a click on another primitive selects just it
    assert!(s.apply_selection_hit(Some(0), false, false));
    assert!(s.selected.contains(&0) && s.selected.len() == 1);
    // a click on nothing clears
    assert!(!s.apply_selection_hit(None, false, false));
    assert!(s.selected.is_empty());
    // ctrl-click on nothing keeps what there is
    assert!(!s.apply_selection_hit(None, false, true));
}

#[test]
fn change_theme_switches_only_when_needed() {
    let mut s = board();
    s.style.canvas_bg = BackgroundKind::Grid;
    s.change_theme(false);
    assert!(s.style.is_dark());
    s.change_theme(true);
    assert!(s.style.is_light());
    assert_eq!(s.style.get_bg(), "#1A1A18");
    assert_eq!(s.style.canvas_bg, BackgroundKind::Grid);
    s.change_theme(true);
    assert!(s.style.is_light());
    s.change_theme(false);
    assert!(s.style.is_dark());
    assert_eq!(s.style.get_bg(), "#F2F0EF");
}

#[test]
fn background_pattern_is_set() {
    let mut s = board();
    s.set_background_pattern(BackgroundKind::Dots);
    assert_eq!(s.background_pattern, BackgroundKind::Dots);
}

#[test]
fn single_or_batch_bundles() {
    let one = single_or_batch(vec![ChalkAction::Add { primitive: rect(0.0, true) }]);
    assert!(matches!(one, ChalkAction::Add { .. }));
    let two = single_or_batch(vec![
        ChalkAction::Add { primitive: rect(0.0, true) },
        ChalkAction::Add { primitive: rect(1.0, true) },
    ]);
    match two {
        ChalkAction::Batch { actions } => assert_eq!(actions.len(), 2),
        _ => panic!("expected a batch"),
    }
    let none: ChalkAction<f64> = single_or_batch(Vec::new());
    match none {
        ChalkAction::Batch { actions } => assert!(actions.is_empty()),
        _ => panic!("expected an empty batch"),
    }
}

#[test]
fn recorded_drag_is_undone_and_redone() {
    let mut s = board_with(3);
    let before1 = s.document[1].clone();
    let before2 = s.document[2].clone();
    s.document[1].transform.position = (10.0, 4.0);
    s.document[2].transform.position = (-3.0, 7.0);
    s.record_edits(vec![(1, before1), (2, before2)]);
    assert_eq!(s.document[1].transform.position, (10.0, 4.0));
    assert_eq!(s.document[2].transform.position, (-3.0, 7.0));

    s.undo();
    assert_eq!(s.document[1].transform.position, (0.0, 0.0));
    assert_eq!(s.document[2].transform.position, (0.0, 0.0));
    assert_eq!(origins(&s), vec![0.0, 1.0, 2.0]);

    s.redo();
    assert_eq!(s.document[1].transform.position, (10.0, 4.0));
    assert_eq!(s.document[2].transform.position, (-3.0, 7.0));
}

#[test]
fn recording_no_edits_changes_nothing() {
    let mut s = board_with(2);
    s.record_edits(Vec::new());
    // The last recorded action is still the second add.
    s.undo();
    assert_eq!(origins(&s), vec![0.0]);
}

#[test]
fn drawing_starts_by_tool_and_finishes() {
    let mut s = board();
    s.begin_drawing_at((10.0, 20.0), (1.0, 2.0), false);
    assert!(s.is_drawing);
    match &s.active {
        Some(ActiveDrawing::Stroke(pts)) => assert_eq!(pts, &vec![(1.0, 2.0)]),
        _ => panic!("expected a stroke"),
    }
    let drawn = s.finish_drawing();
    assert!(matches!(drawn, Some(ActiveDrawing::Stroke(_))));
    assert!(s.active.is_none());
    assert!(!s.is_drawing);

    s.set_tool(Tool::Shape(ShapeKind::Rect));
    s.begin_drawing_at((10.0, 20.0), (1.0, 2.0), false);
    match &s.active {
        Some(ActiveDrawing::Shape(sh)) => {
            assert_eq!(sh.kind, ShapeKind::Rect);
            assert_eq!(sh.anchor, (1.0, 2.0));
            assert_eq!(sh.current, (1.0, 2.0));
        }
        _ => panic!("expected a shape"),
    }

    s.set_tool(Tool::Pan);
    s.begin_drawing_at((10.0, 20.0), (1.0, 2.0), false);
    assert!(s.active.is_none());
    assert_eq!(s.last_pan_pos, Some((10.0, 20.0)));
    s.finish_drawing();
    assert_eq!(s.last_pan_pos, None);

    s.set_tool(Tool::Pen);
    s.begin_drawing_at((3.0, 4.0), (1.0, 2.0), true);
    assert!(s.active.is_none());
    assert_eq!(s.last_pan_pos, Some((3.0, 4.0)));
}

#[test]
fn drags_remember_where_the_selection_started() {
    let mut s = board_with(3);
    s.document[2].transform.position = (7.0, 8.0);
    s.set_tool(Tool::Pointer);
    s.apply_selection_hit(Some(0), false, false);
    s.apply_selection_hit(Some(2), false, true);
    s.begin_drag_at((1.0, 1.0));
    assert!(s.is_drawing);
    assert_eq!(s.drag_start_world, Some((1.0, 1.0)));
    assert_eq!(s.drag_start_transforms.len(), 2);
    assert_eq!(s.drag_start_transforms.get(&2), Some(&(7.0, 8.0)));
    let starts = s.finish_drag();
    assert_eq!(starts.get(&0), Some(&(0.0, 0.0)));
    assert!(s.drag_start_transforms.is_empty());
    assert_eq!(s.drag_start_world, None);
    assert!(!s.is_drawing);

    s.begin_handle_drag_at(HandleKind::Right, (2.0, 2.0), Some((0.0, 0.0, 10.0, 5.0)));
    assert_eq!(s.drag_handle, Some(HandleKind::Right));
    assert_eq!(s.drag_handle_initial_aabb, Some((0.0, 0.0, 10.0, 5.0)));
    let idx: Vec<usize> = s.drag_handle_initial_geoms.iter().map(|g| g.0).collect();
    assert_eq!(idx, vec![0, 2]);
    let snapshot = s.finish_handle_drag();
    assert_eq!(snapshot.len(), 2);
    assert_eq!(snapshot[1].2, (7.0, 8.0));
    assert_eq!(s.drag_handle, None);
    assert!(s.drag_handle_initial_geoms.is_empty());
    assert!(!s.is_drawing);
}
