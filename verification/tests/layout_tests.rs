use tui_core::dimens::Direction;
use tui_core::dimens::Position;
use tui_core::dimens::Rect;
use tui_core::dimens::RequestedSizePercent;
use tui_core::dimens::Size;
use tui_core::layout_error::LayoutError;
use tui_core::render_queue::RenderCommand;
use tui_core::stylesheet::Stylesheet;
use tui_core::style::Style;
use tui_core::surface::BoxProps;
use tui_core::surface::Surface;

fn pos(col: u16, row: u16) -> Position {
    Position { col, row }
}

fn size(cols: u16, rows: u16) -> Size {
    Size { cols, rows }
}

fn req(width_pct: u16, height_pct: u16) -> RequestedSizePercent {
    RequestedSizePercent { width_pct, height_pct }
}

fn props(id: &str, dir: Direction, r: RequestedSizePercent, styles: &[&str]) -> BoxProps {
    BoxProps {
        id: id.to_owned(),
        dir,
        req_size: r,
        style_ids: styles.iter().map(|s| s.to_string()).collect(),
    }
}

fn fresh_surface(cols: u16, rows: u16) -> Surface {
    Surface::start(Stylesheet::new(), pos(0, 0), size(cols, rows)).unwrap()
}

#[test]
fn start_rejects_zero_dimension() {
    let r = Surface::start(Stylesheet::new(), pos(0, 0), size(0, 10));
    assert!(matches!(r, Err(LayoutError::InvalidRootSize)));
    let r = Surface::start(Stylesheet::new(), pos(0, 0), size(10, 0));
    assert!(matches!(r, Err(LayoutError::InvalidRootSize)));
    assert!(Surface::start(Stylesheet::new(), pos(0, 0), size(1, 1)).is_ok());
}

#[test]
fn even_split_gives_two_equal_halves() {
    // A 100-cell-wide root split 50/100 and 50/100 horizontally:
    // cols 0..50 and 50..100.
    let mut s = fresh_surface(100, 100);
    s.box_start(props("a", Direction::Vertical, req(50, 100), &[])).unwrap();
    let first = s.current_box();
    assert_eq!(first, Rect { pos: pos(0, 0), size: size(50, 100) });
    s.box_end().unwrap();
    s.box_start(props("b", Direction::Vertical, req(50, 100), &[])).unwrap();
    let second = s.current_box();
    assert_eq!(second, Rect { pos: pos(50, 0), size: size(50, 100) });
    s.box_end().unwrap();
    assert!(s.end().is_ok());
}

#[test]
fn odd_split_gives_first_child_the_floor_half() {
    // 101 cells split 50/50: the first child gets 50, the second 51.
    let mut s = fresh_surface(101, 100);
    s.box_start(props("a", Direction::Vertical, req(50, 100), &[])).unwrap();
    assert_eq!(s.current_box(), Rect { pos: pos(0, 0), size: size(50, 100) });
    s.box_end().unwrap();
    s.box_start(props("b", Direction::Vertical, req(50, 100), &[])).unwrap();
    assert_eq!(s.current_box(), Rect { pos: pos(50, 0), size: size(51, 100) });
    s.box_end().unwrap();
}

#[test]
fn vertical_packing_stacks_top_to_bottom() {
    let mut s = fresh_surface(80, 24);
    s.box_start(props("outer", Direction::Vertical, req(100, 100), &[])).unwrap();
    s.box_start(props("top", Direction::Horizontal, req(100, 25), &[])).unwrap();
    assert_eq!(s.current_box(), Rect { pos: pos(0, 0), size: size(80, 6) });
    s.box_end().unwrap();
    s.box_start(props("bottom", Direction::Horizontal, req(100, 75), &[])).unwrap();
    assert_eq!(s.current_box(), Rect { pos: pos(0, 6), size: size(80, 18) });
    s.box_end().unwrap();
    s.box_end().unwrap();
}

#[test]
fn box_start_then_box_end_restores_the_stack() {
    let mut s = fresh_surface(100, 100);
    let before = s.current_box();
    s.box_start(props("child", Direction::Horizontal, req(40, 40), &[])).unwrap();
    s.box_end().unwrap();
    assert_eq!(s.current_box(), before);
    // The queue is still empty: box bookkeeping emits no commands.
    let q = s.end().unwrap();
    assert_eq!(q.len(), 0);
}

#[test]
fn end_with_open_boxes_fails() {
    let mut s = fresh_surface(100, 100);
    s.box_start(props("child", Direction::Horizontal, req(10, 10), &[])).unwrap();
    assert!(matches!(s.end(), Err(LayoutError::MismatchedSurfaceEnd)));
}

#[test]
fn end_returns_the_accumulated_queue_unchanged() {
    let mut s = fresh_surface(100, 100);
    s.push_command(RenderCommand::ClearScreen);
    s.push_command(RenderCommand::MoveCursorAbs(pos(3, 4)));
    let q = s.end().unwrap();
    assert_eq!(q.len(), 2);
    assert_eq!(*q.get(0), RenderCommand::ClearScreen);
    assert_eq!(*q.get(1), RenderCommand::MoveCursorAbs(pos(3, 4)));
}

#[test]
fn box_end_with_only_the_root_fails() {
    let mut s = fresh_surface(100, 100);
    assert!(matches!(s.box_end(), Err(LayoutError::MismatchedBoxEnd)));
}

#[test]
fn out_of_range_percentage_is_rejected() {
    let mut s = fresh_surface(100, 100);
    let r = s.box_start(props("big", Direction::Horizontal, req(101, 50), &[]));
    assert!(matches!(r, Err(LayoutError::InvalidRequestedSizePercentage)));
}

#[test]
fn packing_overflow_is_rejected() {
    let mut s = fresh_surface(100, 100);
    s.box_start(props("a", Direction::Vertical, req(60, 100), &[])).unwrap();
    s.box_end().unwrap();
    let r = s.box_start(props("b", Direction::Vertical, req(60, 100), &[]));
    assert!(matches!(r, Err(LayoutError::SiblingLayoutOverflow)));
}

#[test]
fn unknown_style_id_is_rejected() {
    let mut s = fresh_surface(100, 100);
    let r = s.box_start(props("a", Direction::Vertical, req(50, 50), &["nope"]));
    assert!(matches!(r, Err(LayoutError::UnknownStyleId)));
}

#[test]
fn margins_shrink_the_child_rectangle() {
    let mut sheet = Stylesheet::new();
    let mut style = Style::plain("pad".to_owned());
    style.margin = Some(2);
    sheet.add_styles(vec![style]).unwrap();
    let mut s = Surface::start(sheet, pos(0, 0), size(100, 50)).unwrap();
    s.box_start(props("a", Direction::Horizontal, req(100, 100), &["pad"])).unwrap();
    assert_eq!(s.current_box(), Rect { pos: pos(2, 2), size: size(96, 46) });
}

#[test]
fn margin_clamps_at_zero_size() {
    let mut sheet = Stylesheet::new();
    let mut style = Style::plain("huge".to_owned());
    style.margin = Some(40);
    sheet.add_styles(vec![style]).unwrap();
    let mut s = Surface::start(sheet, pos(0, 0), size(30, 30)).unwrap();
    s.box_start(props("a", Direction::Horizontal, req(100, 100), &["huge"])).unwrap();
    let b = s.current_box();
    assert_eq!(b.size, size(0, 0));
    // The inset origin never leaves the parent rectangle.
    assert!(b.pos.col <= 30 && b.pos.row <= 30);
}

#[test]
fn print_inside_box_moves_then_prints_per_line() {
    let mut s = fresh_surface(100, 100);
    s.box_start(props("a", Direction::Vertical, req(50, 50), &[])).unwrap();
    s.print_inside_box(&vec!["hello".to_string(), "world".to_string()]);
    s.box_end().unwrap();
    let q = s.end().unwrap();
    assert_eq!(q.len(), 4);
    assert_eq!(*q.get(0), RenderCommand::MoveCursorAbs(pos(0, 0)));
    assert_eq!(*q.get(1), RenderCommand::PrintStyledText("hello".to_string(), None));
    assert_eq!(*q.get(2), RenderCommand::MoveCursorAbs(pos(0, 1)));
    assert_eq!(*q.get(3), RenderCommand::PrintStyledText("world".to_string(), None));
}

#[test]
fn nested_boxes_stay_inside_their_parents() {
    let mut sheet = Stylesheet::new();
    let mut style = Style::plain("pad".to_owned());
    style.margin = Some(3);
    sheet.add_styles(vec![style]).unwrap();
    let mut s = Surface::start(sheet, pos(5, 7), size(80, 40)).unwrap();
    s.box_start(props("outer", Direction::Horizontal, req(60, 60), &["pad"])).unwrap();
    let outer = s.current_box();
    s.box_start(props("inner", Direction::Vertical, req(50, 50), &["pad"])).unwrap();
    let inner = s.current_box();
    assert!(outer.pos.col <= inner.pos.col);
    assert!(outer.pos.row <= inner.pos.row);
    assert!(inner.pos.col + inner.size.cols <= outer.pos.col + outer.size.cols);
    assert!(inner.pos.row + inner.size.rows <= outer.pos.row + outer.size.rows);
}

#[test]
fn children_never_overflow_the_parent_extent() {
    // Four siblings of 25% each fill a 103-cell parent without overflow.
    let mut s = fresh_surface(103, 50);
    let mut total: u16 = 0;
    let mut right_edge: u16 = 0;
    for id in ["a", "b", "c", "d"] {
        s.box_start(props(id, Direction::Vertical, req(25, 100), &[])).unwrap();
        let b = s.current_box();
        assert!(b.pos.col >= right_edge);
        right_edge = b.pos.col + b.size.cols;
        total += b.size.cols;
        s.box_end().unwrap();
    }
    assert!(total <= 103);
    assert!(right_edge <= 103);
}
