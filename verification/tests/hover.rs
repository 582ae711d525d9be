use egui_dnd::hover::{resolve_hover, ItemRect, Vec2i};
use egui_dnd::{DragDropUi, DragIndices};

fn four_rects() -> Vec<(usize, ItemRect)> {
    vec![
        (0, ItemRect { top: 0, bottom: 80 }),
        (1, ItemRect { top: 100, bottom: 180 }),
        (2, ItemRect { top: 200, bottom: 280 }),
        (3, ItemRect { top: 300, bottom: 380 }),
    ]
}

#[test]
fn no_pointer_yields_none() {
    let r = resolve_hover(None, None, Some(0), 4, &four_rects());
    assert_eq!(r, None);
}

#[test]
fn no_rects_yields_none() {
    let r = resolve_hover(Some(Vec2i { x: 0, y: 50 }), None, None, 0, &Vec::new());
    assert_eq!(r, None);
}

#[test]
fn between_top_and_center_inserts_before_then_corrects() {
    // adjusted y = 110 lies between rectangle 1's top (100) and its center
    // (140): the raw candidate is "insert before rectangle 1", which the
    // source-removal rule (source 0 < 1 < 4) then bumps to 2
    let pointer = Some(Vec2i { x: 0, y: 110 });
    let r = resolve_hover(pointer, None, Some(0), 4, &four_rects());
    assert_eq!(r, Some(2));
}

#[test]
fn below_center_inserts_after() {
    // adjusted y = 150 is below rectangle 1's center (140): candidate 2,
    // bumped to 3 because source 0 was removed
    let pointer = Some(Vec2i { x: 0, y: 150 });
    let r = resolve_hover(pointer, None, Some(0), 4, &four_rects());
    assert_eq!(r, Some(3));
}

#[test]
fn no_correction_without_a_session() {
    let pointer = Some(Vec2i { x: 0, y: 110 });
    let r = resolve_hover(pointer, None, None, 4, &four_rects());
    assert_eq!(r, Some(1));
}

#[test]
fn no_correction_when_source_is_after_candidate() {
    let pointer = Some(Vec2i { x: 0, y: 110 });
    let r = resolve_hover(pointer, None, Some(2), 4, &four_rects());
    assert_eq!(r, Some(1));
}

#[test]
fn no_correction_at_sequence_end() {
    // candidate equals the sequence length already, so the source-removal
    // rule does not push it further
    let pointer = Some(Vec2i { x: 0, y: 400 });
    let r = resolve_hover(pointer, None, Some(0), 4, &four_rects());
    assert_eq!(r, Some(4));
}

#[test]
fn delta_shifts_the_comparison_point() {
    // raw pointer 150 minus grab offset 40 gives the same comparison point
    // as the bare 110 pointer
    let pointer = Some(Vec2i { x: 0, y: 150 });
    let delta = Some(Vec2i { x: 0, y: 40 });
    let r = resolve_hover(pointer, delta, Some(0), 4, &four_rects());
    assert_eq!(r, Some(2));
}

#[test]
fn tie_resolves_to_first_in_display_order() {
    // both rectangles' tops are 30 away from the pointer: the first one wins
    let rects = vec![
        (0, ItemRect { top: 0, bottom: 60 }),
        (1, ItemRect { top: 60, bottom: 120 }),
    ];
    let r = resolve_hover(Some(Vec2i { x: 0, y: 30 }), None, None, 2, &rects);
    // winner is rectangle 0; y = 30 equals its center, which does not count
    // as below it
    assert_eq!(r, Some(0));
}

#[test]
fn state_method_uses_stored_delta_and_source() {
    let mut dnd = DragDropUi::default();
    dnd.begin(0, Vec2i { x: 5, y: 40 });
    assert_eq!(dnd.drag_indices, Some(DragIndices { source: 0, target: 0 }));
    let pointer = Some(Vec2i { x: 9, y: 150 });
    let r = dnd.determine_hovering_index(pointer, 4, four_rects());
    assert_eq!(r, Some(2));
}

#[test]
fn state_method_without_pointer() {
    let dnd = DragDropUi::default();
    assert_eq!(dnd.determine_hovering_index(None, 4, four_rects()), None);
}
