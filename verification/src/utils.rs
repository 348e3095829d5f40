//! Ready-made content fragments: centered messages and the status bar of
//! hints shown at the bottom row of the screen.
//!
//! These helpers only append commands to a queue; positions are clamped
//! at the screen edges and never validated further — execution is the
//! backend's concern.

use vstd::prelude::*;

use crate::dimens::Position;
use crate::dimens::Size;
use crate::dimens::spec_sub_clamped;
use crate::dimens::sub_clamped;
use crate::render_queue::RenderCommand;
use crate::render_queue::RenderCommandView;
use crate::render_queue::RenderQueue;
use crate::style::TextAttributes;

verus! {

/// The column at which a run of `2 * half_width` cells is centered,
/// clamped at the left edge.
pub open spec fn spec_center_col(cols: u16, half_width: u16) -> u16 {
    spec_sub_clamped(cols / 2, half_width as int)
}

/// The bottom row of a screen of `rows` rows (row zero on an empty
/// screen).
pub open spec fn spec_bottom_row(rows: u16) -> u16 {
    spec_sub_clamped(rows, 1)
}

/// The dim attribute set.
pub open spec fn spec_dim() -> TextAttributes {
    TextAttributes { bold: false, dim: true, underline: false }
}

/// The bold attribute set.
pub open spec fn spec_bold() -> TextAttributes {
    TextAttributes { bold: true, dim: false, underline: false }
}

/// The underline attribute set.
pub open spec fn spec_underline() -> TextAttributes {
    TextAttributes { bold: false, dim: false, underline: true }
}

/// The hint bar of the plain example app: cursor to the centered bottom
/// position, then six styled segments. The segments are 59 cells wide.
pub open spec fn spec_status_bar_cmds(size: Size) -> Seq<RenderCommandView> {
    seq![
        RenderCommandView::MoveCursorAbs(
            Position {
                col: spec_center_col(size.cols, 29),
                row: spec_bottom_row(size.rows),
            },
        ),
        RenderCommandView::PrintStyledText("Hints:"@, Some(spec_dim())),
        RenderCommandView::PrintStyledText(" Ctrl + q : Exit "@, Some(spec_bold())),
        RenderCommandView::PrintStyledText(" | "@, Some(spec_dim())),
        RenderCommandView::PrintStyledText(" Up / + : inc "@, Some(spec_underline())),
        RenderCommandView::PrintStyledText(" | "@, Some(spec_dim())),
        RenderCommandView::PrintStyledText(" Down / - : dec "@, Some(spec_underline())),
    ]
}

/// The hint bar of the layout example app, which exits on `x` instead.
/// The segments are 52 cells wide.
pub open spec fn spec_exit_hints_cmds(size: Size) -> Seq<RenderCommandView> {
    seq![
        RenderCommandView::MoveCursorAbs(
            Position {
                col: spec_center_col(size.cols, 26),
                row: spec_bottom_row(size.rows),
            },
        ),
        RenderCommandView::PrintStyledText("Hints:"@, Some(spec_dim())),
        RenderCommandView::PrintStyledText(" x : Exit "@, Some(spec_bold())),
        RenderCommandView::PrintStyledText(" | "@, Some(spec_dim())),
        RenderCommandView::PrintStyledText(" Up / + : inc "@, Some(spec_underline())),
        RenderCommandView::PrintStyledText(" | "@, Some(spec_dim())),
        RenderCommandView::PrintStyledText(" Down / - : dec "@, Some(spec_underline())),
    ]
}

/// Appends the hint bar of the plain example app at the center of the
/// bottom row.
pub fn create_status_bar_message(queue: &mut RenderQueue, size: Size)
    ensures
        final(queue)@ == old(queue)@ + spec_status_bar_cmds(size),
{
    let center = Position {
        col: sub_clamped(size.cols / 2, 29),
        row: sub_clamped(size.rows, 1),
    };
    queue.push(RenderCommand::MoveCursorAbs(center));
    queue.push(RenderCommand::PrintStyledText(
        "Hints:".to_owned(),
        Some(TextAttributes { bold: false, dim: true, underline: false }),
    ));
    queue.push(RenderCommand::PrintStyledText(
        " Ctrl + q : Exit ".to_owned(),
        Some(TextAttributes { bold: true, dim: false, underline: false }),
    ));
    queue.push(RenderCommand::PrintStyledText(
        " | ".to_owned(),
        Some(TextAttributes { bold: false, dim: true, underline: false }),
    ));
    queue.push(RenderCommand::PrintStyledText(
        " Up / + : inc ".to_owned(),
        Some(TextAttributes { bold: false, dim: false, underline: true }),
    ));
    queue.push(RenderCommand::PrintStyledText(
        " | ".to_owned(),
        Some(TextAttributes { bold: false, dim: true, underline: false }),
    ));
    queue.push(RenderCommand::PrintStyledText(
        " Down / - : dec ".to_owned(),
        Some(TextAttributes { bold: false, dim: false, underline: true }),
    ));
    proof {
        assert(queue@ =~= old(queue)@ + spec_status_bar_cmds(size));
    }
}

/// Appends the hint bar of the layout example app at the center of the
/// bottom row.
pub fn render(queue: &mut RenderQueue, size: Size)
    ensures
        final(queue)@ == old(queue)@ + spec_exit_hints_cmds(size),
{
    let center = Position {
        col: sub_clamped(size.cols / 2, 26),
        row: sub_clamped(size.rows, 1),
    };
    queue.push(RenderCommand::MoveCursorAbs(center));
    queue.push(RenderCommand::PrintStyledText(
        "Hints:".to_owned(),
        Some(TextAttributes { bold: false, dim: true, underline: false }),
    ));
    queue.push(RenderCommand::PrintStyledText(
        " x : Exit ".to_owned(),
        Some(TextAttributes { bold: true, dim: false, underline: false }),
    ));
    queue.push(RenderCommand::PrintStyledText(
        " | ".to_owned(),
        Some(TextAttributes { bold: false, dim: true, underline: false }),
    ));
    queue.push(RenderCommand::PrintStyledText(
        " Up / + : inc ".to_owned(),
        Some(TextAttributes { bold: false, dim: false, underline: true }),
    ));
    queue.push(RenderCommand::PrintStyledText(
        " | ".to_owned(),
        Some(TextAttributes { bold: false, dim: true, underline: false }),
    ));
    queue.push(RenderCommand::PrintStyledText(
        " Down / - : dec ".to_owned(),
        Some(TextAttributes { bold: false, dim: false, underline: true }),
    ));
    proof {
        assert(queue@ =~= old(queue)@ + spec_exit_hints_cmds(size));
    }
}

/// The quit hint shown at the center of the bottom row. The message is
/// 22 cells wide.
pub open spec fn spec_quit_msg_cmds(size: Size) -> Seq<RenderCommandView> {
    seq![
        RenderCommandView::MoveCursorAbs(
            Position {
                col: spec_center_col(size.cols, 11),
                row: spec_bottom_row(size.rows),
            },
        ),
        RenderCommandView::PrintStyledText("Press Ctrl + q to exit!"@, None),
    ]
}

/// Appends a quit hint at the center of the bottom row.
pub fn append_quit_msg_center_bottom(queue: &mut RenderQueue, size: Size)
    ensures
        final(queue)@ == old(queue)@ + spec_quit_msg_cmds(size),
{
    let center = Position {
        col: sub_clamped(size.cols / 2, 11),
        row: sub_clamped(size.rows, 1),
    };
    queue.push(RenderCommand::MoveCursorAbs(center));
    queue.push(RenderCommand::PrintStyledText("Press Ctrl + q to exit!".to_owned(), None));
    proof {
        assert(queue@ =~= old(queue)@ + spec_quit_msg_cmds(size));
    }
}

/// The frame of the plain example app: a cleared screen with `content`
/// (which is `content_width` cells wide) centered on it, followed by the
/// status bar of hints.
pub open spec fn spec_centered_content_cmds(
    content: Seq<char>,
    content_width: u16,
    size: Size,
) -> Seq<RenderCommandView> {
    seq![
        RenderCommandView::ClearScreen,
        RenderCommandView::ResetColor,
        RenderCommandView::MoveCursorAbs(
            Position {
                col: spec_center_col(size.cols, (content_width / 2) as u16),
                row: (size.rows / 2) as u16,
            },
        ),
        RenderCommandView::PrintStyledText(content, None),
        RenderCommandView::ResetColor,
    ] + spec_status_bar_cmds(size)
}

/// Builds the full frame of the plain example app: the already formatted
/// content string, measured by the caller as `content_width` cells,
/// centered on a cleared screen, plus the hint bar.
pub fn render_centered_content(content: &String, content_width: u16, size: Size) -> (r:
    RenderQueue)
    ensures
        r@ == spec_centered_content_cmds(content@, content_width, size),
{
    let mut q = RenderQueue::new();
    q.push(RenderCommand::ClearScreen);
    q.push(RenderCommand::ResetColor);
    let center = Position {
        col: sub_clamped(size.cols / 2, content_width / 2),
        row: size.rows / 2,
    };
    q.push(RenderCommand::MoveCursorAbs(center));
    q.push(RenderCommand::PrintStyledText(content.clone(), None));
    q.push(RenderCommand::ResetColor);
    create_status_bar_message(&mut q, size);
    proof {
        assert(q@ =~= spec_centered_content_cmds(content@, content_width, size));
    }
    q
}

} // verus!
