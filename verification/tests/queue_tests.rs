use tui_core::dimens::Position;
use tui_core::render_queue::RenderCommand;
use tui_core::render_queue::RenderQueue;
use tui_core::style::Color;
use tui_core::style::TextAttributes;

#[test]
fn push_keeps_order() {
    let mut q = RenderQueue::new();
    q.push(RenderCommand::ClearScreen);
    q.push(RenderCommand::SetColor(Some(Color::Red), None));
    q.push(RenderCommand::ResetColor);
    assert_eq!(q.len(), 3);
    assert_eq!(*q.get(0), RenderCommand::ClearScreen);
    assert_eq!(*q.get(1), RenderCommand::SetColor(Some(Color::Red), None));
    assert_eq!(*q.get(2), RenderCommand::ResetColor);
}

#[test]
fn join_concatenates_without_reordering_or_dedup() {
    // A later ClearScreen does not cancel earlier prints: both stay, in
    // order.
    let mut q1 = RenderQueue::new();
    q1.push(RenderCommand::PrintStyledText("first".to_string(), None));
    q1.push(RenderCommand::ClearScreen);
    let mut q2 = RenderQueue::new();
    q2.push(RenderCommand::ClearScreen);
    q2.push(RenderCommand::PrintStyledText("second".to_string(), None));
    q1.join(&mut q2);
    assert_eq!(q1.len(), 4);
    assert_eq!(q2.len(), 0);
    assert_eq!(*q1.get(0), RenderCommand::PrintStyledText("first".to_string(), None));
    assert_eq!(*q1.get(1), RenderCommand::ClearScreen);
    assert_eq!(*q1.get(2), RenderCommand::ClearScreen);
    assert_eq!(*q1.get(3), RenderCommand::PrintStyledText("second".to_string(), None));
}

#[test]
fn out_of_bounds_moves_pass_through_untouched() {
    // The queue carries no bounds validation: clamping is the backend's
    // concern.
    let mut q = RenderQueue::new();
    q.push(RenderCommand::MoveCursorAbs(Position { col: 65535, row: 65535 }));
    assert_eq!(*q.get(0), RenderCommand::MoveCursorAbs(Position { col: 65535, row: 65535 }));
}

#[test]
fn equality_is_structural() {
    let attrs = TextAttributes { bold: true, dim: false, underline: false };
    let mut q1 = RenderQueue::new();
    q1.push(RenderCommand::PrintStyledText("hi".to_string(), Some(attrs)));
    let mut q2 = RenderQueue::new();
    q2.push(RenderCommand::PrintStyledText("hi".to_string(), Some(attrs)));
    assert_eq!(q1, q2);
    q2.push(RenderCommand::ResetColor);
    assert_ne!(q1, q2);
}
