use chalk::canvas::action::ChalkAction;
use chalk::canvas::history::History;
use chalk::canvas::primitives::geometry::Geometry;
use chalk::canvas::primitives::style::PrimitiveStyle;
use chalk::canvas::primitives::transform::Transform;
use chalk::canvas::primitives::Primitive;

fn line(x: f64) -> Primitive<f64> {
    Primitive {
        geometry: Geometry::Line { start: (x, 0.0), end: (x, 10.0) },
        style: PrimitiveStyle::new(String::from("#F2F0EF"), 2.0),
        transform: Transform { position: (0.0, 0.0), rotation: 0.0, scale: 1.0 },
    }
}

fn xs(doc: &[Primitive<f64>]) -> Vec<f64> {
    doc.iter()
        .map(|p| match p.geometry {
            Geometry::Line { start, .. } => start.0,
            _ => -1.0,
        })
        .collect()
}

#[test]
fn apply_then_undo_restores_document() {
    let mut h: History<f64> = History::default();
    let mut doc = vec![line(1.0)];
    h.apply(&mut doc, ChalkAction::Add { primitive: line(2.0) });
    assert_eq!(xs(&doc), vec![1.0, 2.0]);
    h.undo(&mut doc);
    assert_eq!(xs(&doc), vec![1.0]);
}

#[test]
fn redo_after_undo_restores_document() {
    let mut h: History<f64> = History::default();
    let mut doc = Vec::new();
    h.apply(&mut doc, ChalkAction::Add { primitive: line(1.0) });
    h.apply(&mut doc, ChalkAction::Add { primitive: line(2.0) });
    h.undo(&mut doc);
    h.undo(&mut doc);
    assert!(doc.is_empty());
    h.redo(&mut doc);
    h.redo(&mut doc);
    assert_eq!(xs(&doc), vec![1.0, 2.0]);
}

#[test]
fn undo_and_redo_at_the_ends_do_nothing() {
    let mut h: History<f64> = History::default();
    let mut doc = vec![line(5.0)];
    h.undo(&mut doc);
    assert_eq!(xs(&doc), vec![5.0]);
    h.redo(&mut doc);
    assert_eq!(xs(&doc), vec![5.0]);
}

#[test]
fn new_action_after_undo_discards_redo() {
    let mut h: History<f64> = History::default();
    let mut doc = Vec::new();
    h.apply(&mut doc, ChalkAction::Add { primitive: line(1.0) });
    h.undo(&mut doc);
    h.apply(&mut doc, ChalkAction::Add { primitive: line(2.0) });
    h.redo(&mut doc);
    assert_eq!(xs(&doc), vec![2.0]);
}

#[test]
fn delete_and_transform_undo() {
    let mut h: History<f64> = History::default();
    let mut doc = vec![line(1.0), line(2.0), line(3.0)];
    h.apply(&mut doc, ChalkAction::Delete { primitive: line(2.0), index: 1 });
    assert_eq!(xs(&doc), vec![1.0, 3.0]);
    h.apply(&mut doc, ChalkAction::Transform { before: line(3.0), after: line(9.0), index: 1 });
    assert_eq!(xs(&doc), vec![1.0, 9.0]);
    h.undo(&mut doc);
    assert_eq!(xs(&doc), vec![1.0, 3.0]);
    h.undo(&mut doc);
    assert_eq!(xs(&doc), vec![1.0, 2.0, 3.0]);
}

#[test]
fn batch_is_applied_in_order_and_undone_in_reverse() {
    let mut h: History<f64> = History::default();
    let mut doc = vec![line(1.0), line(2.0), line(3.0)];
    let batch = ChalkAction::Batch {
        actions: vec![
            ChalkAction::Delete { primitive: line(3.0), index: 2 },
            ChalkAction::Delete { primitive: line(1.0), index: 0 },
            ChalkAction::Add { primitive: line(7.0) },
        ],
    };
    h.apply(&mut doc, batch);
    assert_eq!(xs(&doc), vec![2.0, 7.0]);
    h.undo(&mut doc);
    assert_eq!(xs(&doc), vec![1.0, 2.0, 3.0]);
    h.redo(&mut doc);
    assert_eq!(xs(&doc), vec![2.0, 7.0]);
}

#[test]
fn clear_then_undo_restores_document() {
    let mut h: History<f64> = History::default();
    let mut doc = vec![line(1.0), line(2.0)];
    h.clear(&mut doc);
    assert!(doc.is_empty());
    h.undo(&mut doc);
    assert_eq!(xs(&doc), vec![1.0, 2.0]);
}

#[test]
fn push_without_apply_is_undone_like_any_action() {
    let mut h: History<f64> = History::default();
    let mut doc = vec![line(1.0)];
    doc[0] = line(4.0);
    h.push_without_apply(ChalkAction::Transform { before: line(1.0), after: line(4.0), index: 0 });
    assert_eq!(xs(&doc), vec![4.0]);
    h.undo(&mut doc);
    assert_eq!(xs(&doc), vec![1.0]);
    h.redo(&mut doc);
    assert_eq!(xs(&doc), vec![4.0]);
}

#[test]
fn oldest_actions_beyond_capacity_are_dropped() {
    let mut h: History<f64> = History::default();
    let mut doc = Vec::new();
    for i in 0..150 {
        h.apply(&mut doc, ChalkAction::Add { primitive: line(i as f64) });
    }
    assert_eq!(doc.len(), 150);
    for _ in 0..200 {
        h.undo(&mut doc);
    }
    // Apply keeps at most the capacity (100) actions.
    assert_eq!(doc.len(), 150 - 100);
}

#[test]
fn a_full_history_keeps_exactly_its_capacity() {
    let mut h: History<f64> = History::default();
    let mut doc = Vec::new();
    for i in 0..100 {
        h.apply(&mut doc, ChalkAction::Add { primitive: line(i as f64) });
    }
    for _ in 0..100 {
        h.undo(&mut doc);
    }
    assert!(doc.is_empty());
    for _ in 0..100 {
        h.redo(&mut doc);
    }
    h.apply(&mut doc, ChalkAction::Add { primitive: line(100.0) });
    for _ in 0..200 {
        h.undo(&mut doc);
    }
    // The oldest add was dropped to make room for the new one.
    assert_eq!(xs(&doc), vec![0.0]);
}

#[test]
fn undo_of_add_on_empty_document_is_harmless() {
    let mut h: History<f64> = History::default();
    let mut doc = Vec::new();
    h.push_without_apply(ChalkAction::Add { primitive: line(1.0) });
    h.undo(&mut doc);
    assert!(doc.is_empty());
}

#[test]
fn action_len_counts_touched_primitives() {
    let a: ChalkAction<f64> = ChalkAction::Batch {
        actions: vec![
            ChalkAction::Add { primitive: line(1.0) },
            ChalkAction::Clear { previous: vec![line(1.0), line(2.0), line(3.0)] },
            ChalkAction::Batch {
                actions: vec![
                    ChalkAction::Delete { primitive: line(1.0), index: 0 },
                    ChalkAction::Transform { before: line(1.0), after: line(2.0), index: 0 },
                ],
            },
        ],
    };
    assert_eq!(a.len(), 6);
    let empty: ChalkAction<f64> = ChalkAction::Batch { actions: vec![] };
    assert_eq!(empty.len(), 0);
}

#[test]
fn primitive_clone_and_empty() {
    let p = line(3.0);
    assert_eq!(p.clone(), p);
    assert!(!p.is_empty());
    let s = Primitive {
        geometry: Geometry::Stroke(vec![]),
        style: PrimitiveStyle::new(String::from("#000000"), 1.0),
        transform: Transform { position: (0.0, 0.0), rotation: 0.0, scale: 1.0 },
    };
    assert!(s.is_empty());
    let t = Primitive { geometry: Geometry::Stroke(vec![(1.0, 2.0)]), ..s.clone() };
    assert!(!t.is_empty());
    assert_eq!(t.geometry.clone(), Geometry::Stroke(vec![(1.0, 2.0)]));
}

#[test]
fn style_builders() {
    let s = PrimitiveStyle::new(String::from("#123456"), 3.0).with_fill(String::from("#FFFFFF"));
    assert_eq!(s.stroke_color.as_deref(), Some("#123456"));
    assert_eq!(s.fill_color.as_deref(), Some("#FFFFFF"));
    assert_eq!(s.stroke_width, 3.0);
    let n = s.with_no_stroke();
    assert_eq!(n.stroke_color, None);
    assert_eq!(n.fill_color.as_deref(), Some("#FFFFFF"));
}

#[test]
fn cloned_history_and_actions_are_independent_copies() {
    let mut h: History<f64> = History::default();
    let mut doc = Vec::new();
    h.apply(&mut doc, ChalkAction::Add { primitive: line(1.0) });
    h.apply(&mut doc, ChalkAction::Batch {
        actions: vec![
            ChalkAction::Add { primitive: line(2.0) },
            ChalkAction::Add { primitive: line(3.0) },
        ],
    });
    let mut copy = h.clone();
    let mut doc2 = doc.clone();
    h.undo(&mut doc);
    assert_eq!(xs(&doc), vec![1.0]);
    // The copy still holds both actions at the same cursor.
    copy.undo(&mut doc2);
    assert_eq!(xs(&doc2), vec![1.0]);
    copy.undo(&mut doc2);
    assert!(doc2.is_empty());

    let a = ChalkAction::Delete { primitive: line(5.0), index: 0 };
    match a.clone() {
        ChalkAction::Delete { primitive, index } => {
            assert_eq!(index, 0);
            assert_eq!(xs(&[primitive]), vec![5.0]);
        }
        _ => panic!("expected a delete"),
    }
}
