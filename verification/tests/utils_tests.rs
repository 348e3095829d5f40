use tui_core::dimens::Position;
use tui_core::dimens::Size;
use tui_core::render_queue::RenderCommand;
use tui_core::render_queue::RenderQueue;
use tui_core::style::TextAttributes;
use tui_core::utils::append_quit_msg_center_bottom;
use tui_core::utils::create_status_bar_message;
use tui_core::utils::render;
use tui_core::utils::render_centered_content;

fn pos(col: u16, row: u16) -> Position {
    Position { col, row }
}

fn size(cols: u16, rows: u16) -> Size {
    Size { cols, rows }
}

fn text_of(cmd: &RenderCommand) -> &str {
    match cmd {
        RenderCommand::PrintStyledText(text, _) => text,
        other => panic!("expected a print, got {:?}", other),
    }
}

fn attrs_of(cmd: &RenderCommand) -> TextAttributes {
    match cmd {
        RenderCommand::PrintStyledText(_, attrs) => attrs.expect("expected attributes"),
        other => panic!("expected a print, got {:?}", other),
    }
}

#[test]
fn quit_message_sits_at_the_centered_bottom() {
    let mut q = RenderQueue::new();
    append_quit_msg_center_bottom(&mut q, size(80, 24));
    assert_eq!(q.len(), 2);
    assert_eq!(*q.get(0), RenderCommand::MoveCursorAbs(pos(29, 23)));
    assert_eq!(
        *q.get(1),
        RenderCommand::PrintStyledText("Press Ctrl + q to exit!".to_string(), None)
    );
}

#[test]
fn quit_message_clamps_on_a_tiny_screen() {
    let mut q = RenderQueue::new();
    append_quit_msg_center_bottom(&mut q, size(4, 1));
    assert_eq!(*q.get(0), RenderCommand::MoveCursorAbs(pos(0, 0)));
}

#[test]
fn status_bar_prints_six_styled_segments() {
    let mut q = RenderQueue::new();
    create_status_bar_message(&mut q, size(80, 24));
    assert_eq!(q.len(), 7);
    assert_eq!(*q.get(0), RenderCommand::MoveCursorAbs(pos(11, 23)));
    assert_eq!(text_of(q.get(1)), "Hints:");
    assert!(attrs_of(q.get(1)).dim);
    assert_eq!(text_of(q.get(2)), " Ctrl + q : Exit ");
    assert!(attrs_of(q.get(2)).bold);
    assert_eq!(text_of(q.get(4)), " Up / + : inc ");
    assert!(attrs_of(q.get(4)).underline);
    assert_eq!(text_of(q.get(6)), " Down / - : dec ");
    assert!(attrs_of(q.get(6)).underline);
}

#[test]
fn exit_hints_bar_uses_the_x_exit_hint() {
    let mut q = RenderQueue::new();
    render(&mut q, size(80, 24));
    assert_eq!(q.len(), 7);
    assert_eq!(*q.get(0), RenderCommand::MoveCursorAbs(pos(14, 23)));
    assert_eq!(text_of(q.get(2)), " x : Exit ");
    assert!(attrs_of(q.get(2)).bold);
}

#[test]
fn centered_content_clears_prints_and_appends_the_status_bar() {
    let q = render_centered_content(&"count: 3".to_string(), 8, size(80, 24));
    assert_eq!(q.len(), 12);
    assert_eq!(*q.get(0), RenderCommand::ClearScreen);
    assert_eq!(*q.get(1), RenderCommand::ResetColor);
    assert_eq!(*q.get(2), RenderCommand::MoveCursorAbs(pos(36, 12)));
    assert_eq!(*q.get(3), RenderCommand::PrintStyledText("count: 3".to_string(), None));
    assert_eq!(*q.get(4), RenderCommand::ResetColor);
    assert_eq!(*q.get(5), RenderCommand::MoveCursorAbs(pos(11, 23)));
}
