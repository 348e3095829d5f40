//! The render command queue: an ordered, append-only sequence of primitive
//! terminal draw operations.
//!
//! Commands are data, not actions — a backend executes them later, in
//! order. Queues compose by concatenation, with no reordering and no
//! deduplication, so every layer of a frame contributes independently.
//! The queue carries no validation of terminal bounds: an out-of-range
//! cursor move is passed through as-is and is the backend's concern.

use vstd::prelude::*;

use crate::dimens::Position;
use crate::style::Color;
use crate::style::TextAttributes;

verus! {

/// One primitive terminal draw instruction.
#[derive(Debug, Clone, PartialEq)]
pub enum RenderCommand {
    /// Clear the whole screen.
    ClearScreen,
    /// Reset foreground and background colors to the terminal default.
    ResetColor,
    /// Move the cursor to an absolute position.
    MoveCursorAbs(Position),
    /// Set the foreground and/or background color.
    SetColor(Option<Color>, Option<Color>),
    /// Print a piece of text, optionally under a set of text attributes.
    PrintStyledText(String, Option<TextAttributes>),
}

/// The mathematical value of a [`RenderCommand`], with text as a character
/// sequence.
pub enum RenderCommandView {
    ClearScreen,
    ResetColor,
    MoveCursorAbs(Position),
    SetColor(Option<Color>, Option<Color>),
    PrintStyledText(Seq<char>, Option<TextAttributes>),
}

impl View for RenderCommand {
    type V = RenderCommandView;

    open spec fn view(&self) -> RenderCommandView {
        match self {
            RenderCommand::ClearScreen => RenderCommandView::ClearScreen,
            RenderCommand::ResetColor => RenderCommandView::ResetColor,
            RenderCommand::MoveCursorAbs(p) => RenderCommandView::MoveCursorAbs(*p),
            RenderCommand::SetColor(fg, bg) => RenderCommandView::SetColor(*fg, *bg),
            RenderCommand::PrintStyledText(s, a) => RenderCommandView::PrintStyledText(s@, *a),
        }
    }
}

/// An ordered, appendable queue of [`RenderCommand`]s. Its mathematical
/// value is the sequence of command views, in execution order.
#[derive(Debug, Clone, PartialEq)]
pub struct RenderQueue {
    commands: Vec<RenderCommand>,
}

impl View for RenderQueue {
    type V = Seq<RenderCommandView>;

    closed spec fn view(&self) -> Seq<RenderCommandView> {
        self.commands@.map_values(|c: RenderCommand| c@)
    }
}

impl RenderQueue {
    /// An empty queue.
    pub fn new() -> (r: RenderQueue)
        ensures
            r@ == Seq::<RenderCommandView>::empty(),
    {
        let q = RenderQueue { commands: Vec::new() };
        proof {
            assert(q@ =~= Seq::<RenderCommandView>::empty());
        }
        q
    }

    /// How many commands the queue holds.
    pub fn len(&self) -> (r: usize)
        ensures
            r == self@.len(),
    {
        self.commands.len()
    }

    /// Appends one command at the back.
    pub fn push(&mut self, cmd: RenderCommand)
        ensures
            final(self)@ == old(self)@.push(cmd@),
    {
        let ghost cv = cmd@;
        self.commands.push(cmd);
        proof {
            assert(self@ =~= old(self)@.push(cv));
        }
    }

    /// Appends every command of `other` at the back, in order, emptying
    /// `other`.
    pub fn join(&mut self, other: &mut RenderQueue)
        ensures
            final(self)@ == old(self)@ + old(other)@,
            final(other)@ == Seq::<RenderCommandView>::empty(),
    {
        self.commands.append(&mut other.commands);
        proof {
            assert(self@ =~= old(self)@ + old(other)@);
            assert(other@ =~= Seq::<RenderCommandView>::empty());
        }
    }

    /// The command stored at `index`.
    pub fn get(&self, index: usize) -> (r: &RenderCommand)
        requires
            index < self@.len(),
        ensures
            r@ == self@[index as int],
    {
        &self.commands[index]
    }
}

} // verus!
