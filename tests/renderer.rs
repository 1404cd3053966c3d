use coil_engine::{BasicRenderer, Cell, CellUpdate, Color, EngineError, Renderer};

fn cell(ch: char) -> Cell {
    Cell { ch, fg: Color::White, bg: Color::Black }
}

#[test]
fn new_renderer_is_blank_and_flushes_nothing() {
    let mut r = BasicRenderer::new(80, 24);
    assert_eq!(r.size(), (80, 24));
    assert_eq!(r.cell(0, 0), Some(Cell::blank()));
    assert_eq!(r.cell(79, 23), Some(Cell::blank()));
    assert!(r.flush().is_empty());
}

#[test]
fn flush_emits_only_changed_cells_in_order() {
    let mut r = BasicRenderer::new(4, 3);
    r.draw_cell(2, 1, cell('b')).unwrap();
    r.draw_cell(1, 0, cell('a')).unwrap();
    let out = r.flush();
    assert_eq!(
        out,
        vec![
            CellUpdate { x: 1, y: 0, cell: cell('a') },
            CellUpdate { x: 2, y: 1, cell: cell('b') },
        ]
    );
}

#[test]
fn second_flush_is_empty() {
    let mut r = BasicRenderer::new(10, 5);
    r.draw_str(0, 0, "hello", Color::Red, Color::Reset).unwrap();
    assert_eq!(r.flush().len(), 5);
    assert!(r.flush().is_empty());
}

#[test]
fn redrawing_the_same_frame_costs_nothing() {
    let mut r = BasicRenderer::new(10, 5);
    r.draw_str(1, 1, "abc", Color::Green, Color::Reset).unwrap();
    assert_eq!(r.flush().len(), 3);
    r.clear().unwrap();
    r.draw_str(1, 1, "abc", Color::Green, Color::Reset).unwrap();
    assert!(r.flush().is_empty());
    r.clear().unwrap();
    let out = r.flush();
    assert_eq!(out.len(), 3);
    assert!(out.iter().all(|u| u.cell == Cell::blank()));
}

#[test]
fn any_field_difference_forces_a_redraw() {
    let mut r = BasicRenderer::new(3, 1);
    r.draw_cell(0, 0, Cell { ch: ' ', fg: Color::Red, bg: Color::Reset }).unwrap();
    r.draw_cell(1, 0, Cell { ch: ' ', fg: Color::Reset, bg: Color::Rgb { r: 1, g: 2, b: 3 } }).unwrap();
    assert_eq!(r.flush().len(), 2);
}

#[test]
fn draw_cell_out_of_bounds_fails_and_changes_nothing() {
    let mut r = BasicRenderer::new(5, 4);
    assert!(matches!(r.draw_cell(5, 0, cell('x')), Err(EngineError::Render(_))));
    assert!(matches!(r.draw_cell(0, 4, cell('x')), Err(EngineError::Render(_))));
    assert!(r.flush().is_empty());
    assert!(r.draw_cell(4, 3, cell('x')).is_ok());
    assert_eq!(r.cell(4, 3), Some(cell('x')));
}

#[test]
fn draw_str_at_right_edge_truncates() {
    let mut r = BasicRenderer::new(5, 2);
    assert!(r.draw_str(3, 1, "hello", Color::White, Color::Black).is_ok());
    assert_eq!(r.cell(3, 1), Some(cell('h')));
    assert_eq!(r.cell(4, 1), Some(cell('e')));
    assert_eq!(r.cell(0, 1), Some(Cell::blank()));
    assert_eq!(r.flush().len(), 2);
    assert!(r.draw_str(0, 2, "below", Color::White, Color::Black).is_ok());
    assert!(r.draw_str(9, 0, "right", Color::White, Color::Black).is_ok());
    assert!(r.flush().is_empty());
}

#[test]
fn draw_str_handles_wide_characters_per_char() {
    let mut r = BasicRenderer::new(4, 1);
    r.draw_str(0, 0, "█é", Color::Green, Color::Reset).unwrap();
    assert_eq!(r.cell(0, 0).unwrap().ch, '█');
    assert_eq!(r.cell(1, 0).unwrap().ch, 'é');
    assert_eq!(r.cell(2, 0), Some(Cell::blank()));
}

#[test]
fn index_and_coordinates() {
    let r = BasicRenderer::new(7, 3);
    assert_eq!(r.index(3, 2).unwrap(), 17);
    assert!(matches!(r.index(7, 0), Err(EngineError::Render(_))));
    assert_eq!(r.coordinates(17).unwrap(), (3, 2));
    assert!(matches!(r.coordinates(21), Err(EngineError::Render(_))));
    assert_eq!(r.cell(7, 0), None);
}

#[test]
fn zero_sized_renderer() {
    let mut r = BasicRenderer::new(0, 5);
    assert!(r.draw_cell(0, 0, cell('x')).is_err());
    assert!(r.draw_str(0, 0, "x", Color::Reset, Color::Reset).is_ok());
    assert!(r.flush().is_empty());
}
