//! The stack-based box layout engine.
//!
//! A [`Surface`] is the context of one layout pass: a stack of open box
//! rectangles, per-box packing progress, the active style sheet and the
//! accumulated render command queue. Callers open a box with
//! [`Surface::box_start`], place content or recurse, and close it with
//! [`Surface::box_end`]; the surface resolves percentage requests into
//! absolute rectangles as boxes are opened.
//!
//! Sibling boxes are packed along the parent's direction axis by
//! cumulative percentages: a child spans the cells from
//! `extent * before / 100` to `extent * (before + pct) / 100`, each
//! rounded toward zero. A 50/50 split of an odd extent therefore gives
//! the first child the floor half and the second child the rest
//! (101 cells split into 50 and 51).

use vstd::prelude::*;

use crate::dimens::Direction;
use crate::dimens::Position;
use crate::dimens::Rect;
use crate::dimens::RequestedSizePercent;
use crate::dimens::Size;
use crate::dimens::inset_rect;
use crate::dimens::lemma_inset_contained;
use crate::dimens::lemma_portion_bounds;
use crate::dimens::lemma_rect_contains_trans;
use crate::dimens::portion;
use crate::dimens::rect_contains;
use crate::dimens::rect_fits;
use crate::dimens::req_size_valid;
use crate::dimens::sat_add;
use crate::dimens::spec_inset;
use crate::dimens::spec_portion;
use crate::dimens::spec_sat_add;
use crate::layout_error::LayoutError;
use crate::render_queue::RenderCommand;
use crate::render_queue::RenderCommandView;
use crate::render_queue::RenderQueue;
use crate::style::Style;
use crate::style::StyleView;
use crate::style::spec_margin_or_zero;
use crate::stylesheet::Stylesheet;
use crate::stylesheet::sheet_has_id;
use crate::stylesheet::sheet_ids_unique;
use crate::stylesheet::spec_find_styles;

verus! {

/// One open box on the layout stack: its id, the packing direction of its
/// children, and its resolved absolute rectangle.
#[derive(Debug)]
pub struct LayoutFrame {
    pub id: String,
    pub dir: Direction,
    pub bounds: Rect,
}

/// The mathematical value of a [`LayoutFrame`].
#[verifier::ext_equal]
pub struct FrameView {
    pub id: Seq<char>,
    pub dir: Direction,
    pub bounds: Rect,
}

impl View for LayoutFrame {
    type V = FrameView;

    open spec fn view(&self) -> FrameView {
        FrameView { id: self.id@, dir: self.dir, bounds: self.bounds }
    }
}

/// The mutable bookkeeping of one open box: how much of the packing axis
/// its children have committed, and how many content rows have been
/// printed inside it.
#[derive(Clone, Copy, Debug, PartialEq, Eq, Structural)]
pub struct BoxProgress {
    pub used_pct: u16,
    pub content_rows: u16,
}

/// The caller-facing description of a box to open: its id, the packing
/// direction for its own children, the requested size as a percentage of
/// the parent, and the ids of the styles that decorate it.
#[derive(Debug)]
pub struct BoxProps {
    pub id: String,
    pub dir: Direction,
    pub req_size: RequestedSizePercent,
    pub style_ids: Vec<String>,
}

/// The mathematical value of a whole [`Surface`].
#[verifier::ext_equal]
pub struct SurfaceView {
    pub frames: Seq<FrameView>,
    pub progress: Seq<BoxProgress>,
    pub sheet: Seq<StyleView>,
    pub queue: Seq<RenderCommandView>,
}

/// The extent of a rectangle along a packing axis.
pub open spec fn axis_extent(b: Rect, dir: Direction) -> u16 {
    match dir {
        Direction::Horizontal => b.size.cols,
        Direction::Vertical => b.size.rows,
    }
}

/// The share of the packing axis a size request asks for.
pub open spec fn axis_pct(req: RequestedSizePercent, dir: Direction) -> u16 {
    match dir {
        Direction::Horizontal => req.width_pct,
        Direction::Vertical => req.height_pct,
    }
}

/// The outer rectangle of a new child, before margins: placed immediately
/// after the previously committed siblings along the parent's direction
/// axis, sized by cumulative percentages along that axis and by a plain
/// percentage across it.
pub open spec fn spec_outer_child_rect(
    parent: FrameView,
    used_pct: u16,
    req: RequestedSizePercent,
) -> Rect {
    match parent.dir {
        Direction::Horizontal => {
            let e = parent.bounds.size.cols;
            let off0 = spec_portion(e, used_pct);
            let off1 = spec_portion(e, (used_pct + req.width_pct) as u16);
            Rect {
                pos: Position {
                    col: (parent.bounds.pos.col + off0) as u16,
                    row: parent.bounds.pos.row,
                },
                size: Size {
                    cols: (off1 - off0) as u16,
                    rows: spec_portion(parent.bounds.size.rows, req.height_pct) as u16,
                },
            }
        },
        Direction::Vertical => {
            let e = parent.bounds.size.rows;
            let off0 = spec_portion(e, used_pct);
            let off1 = spec_portion(e, (used_pct + req.height_pct) as u16);
            Rect {
                pos: Position {
                    col: parent.bounds.pos.col,
                    row: (parent.bounds.pos.row + off0) as u16,
                },
                size: Size {
                    cols: spec_portion(parent.bounds.size.cols, req.width_pct) as u16,
                    rows: (off1 - off0) as u16,
                },
            }
        },
    }
}

/// Applying the margins of `styles` to `r`, first style first: each named
/// style shrinks the rectangle symmetrically by its margin, clamped at
/// zero.
pub open spec fn spec_apply_margins(r: Rect, styles: Seq<StyleView>) -> Rect
    decreases styles.len(),
{
    if styles.len() == 0 {
        r
    } else {
        spec_apply_margins(spec_inset(r, spec_margin_or_zero(styles.first())), styles.drop_first())
    }
}

/// Margins only ever shrink: the result stays inside the original
/// rectangle and on the screen.
pub proof fn lemma_apply_margins_contained(r: Rect, styles: Seq<StyleView>)
    requires
        rect_fits(r),
    ensures
        rect_contains(r, spec_apply_margins(r, styles)),
        rect_fits(spec_apply_margins(r, styles)),
    decreases styles.len(),
{
    if styles.len() == 0 {
    } else {
        let shrunk = spec_inset(r, spec_margin_or_zero(styles.first()));
        lemma_inset_contained(r, spec_margin_or_zero(styles.first()));
        lemma_apply_margins_contained(shrunk, styles.drop_first());
        lemma_rect_contains_trans(r, shrunk, spec_apply_margins(shrunk, styles.drop_first()));
    }
}

/// The outer rectangle of a new child lies inside the parent and on the
/// screen.
pub proof fn lemma_outer_child_in_parent(parent: FrameView, used_pct: u16, req: RequestedSizePercent)
    requires
        rect_fits(parent.bounds),
        req_size_valid(req),
        used_pct + axis_pct(req, parent.dir) <= 100,
    ensures
        rect_contains(parent.bounds, spec_outer_child_rect(parent, used_pct, req)),
        rect_fits(spec_outer_child_rect(parent, used_pct, req)),
{
    match parent.dir {
        Direction::Horizontal => {
            let e = parent.bounds.size.cols;
            lemma_portion_bounds(e, used_pct, (used_pct + req.width_pct) as u16);
            lemma_portion_bounds(
                parent.bounds.size.rows,
                req.height_pct,
                req.height_pct,
            );
        },
        Direction::Vertical => {
            let e = parent.bounds.size.rows;
            lemma_portion_bounds(e, used_pct, (used_pct + req.height_pct) as u16);
            lemma_portion_bounds(
                parent.bounds.size.cols,
                req.width_pct,
                req.width_pct,
            );
        },
    }
}

/// The frame a successful `box_start` pushes: the outer child rectangle
/// shrunk by the margins of the named styles.
pub open spec fn spec_child_frame(
    parent: FrameView,
    used_pct: u16,
    id: Seq<char>,
    dir: Direction,
    req: RequestedSizePercent,
    sheet: Seq<StyleView>,
    style_ids: Seq<Seq<char>>,
) -> FrameView {
    FrameView {
        id,
        dir,
        bounds: spec_apply_margins(
            spec_outer_child_rect(parent, used_pct, req),
            spec_find_styles(sheet, style_ids),
        ),
    }
}

/// The well-formedness invariant of a surface: at least the root frame is
/// open, frames and progress run in lockstep, every open rectangle fits
/// the screen and lies inside the one below it, and no box has committed
/// more than its full axis.
pub open spec fn surface_wf(sv: SurfaceView) -> bool {
    &&& sv.frames.len() >= 1
    &&& sv.progress.len() == sv.frames.len()
    &&& forall|i: int| 0 <= i < sv.frames.len() ==> rect_fits(#[trigger] sv.frames[i].bounds)
    &&& forall|i: int|
        0 <= i < sv.frames.len() - 1 ==> rect_contains(
            #[trigger] sv.frames[i].bounds,
            sv.frames[i + 1].bounds,
        )
    &&& forall|i: int| 0 <= i < sv.progress.len() ==> (#[trigger] sv.progress[i]).used_pct <= 100
    &&& sheet_ids_unique(sv.sheet)
}

/// Every open rectangle contains every rectangle opened above it.
pub proof fn lemma_stack_containment(sv: SurfaceView, i: int, j: int)
    requires
        surface_wf(sv),
        0 <= i <= j < sv.frames.len(),
    ensures
        rect_contains(sv.frames[i].bounds, sv.frames[j].bounds),
    decreases j - i,
{
    if i == j {
    } else {
        lemma_stack_containment(sv, i + 1, j);
        assert(rect_contains(sv.frames[i].bounds, sv.frames[i + 1].bounds));
        lemma_rect_contains_trans(
            sv.frames[i].bounds,
            sv.frames[i + 1].bounds,
            sv.frames[j].bounds,
        );
    }
}

/// Success condition of `box_start`: the request is within range, every
/// named style exists, and the parent still has room along its packing
/// axis.
pub open spec fn box_start_ok(
    sv: SurfaceView,
    req: RequestedSizePercent,
    style_ids: Seq<Seq<char>>,
) -> bool {
    &&& req_size_valid(req)
    &&& forall|k: int| 0 <= k < style_ids.len() ==> sheet_has_id(sv.sheet, #[trigger] style_ids[k])
    &&& sv.progress.last().used_pct + axis_pct(req, sv.frames.last().dir) <= 100
}

/// Which layout error a failing `box_start` reports: an out-of-range
/// request first, then an unknown style id, then packing overflow.
pub open spec fn spec_box_start_err(
    sv: SurfaceView,
    req: RequestedSizePercent,
    style_ids: Seq<Seq<char>>,
) -> LayoutError {
    if !req_size_valid(req) {
        LayoutError::InvalidRequestedSizePercentage
    } else if !(forall|k: int|
        0 <= k < style_ids.len() ==> sheet_has_id(sv.sheet, #[trigger] style_ids[k])) {
        LayoutError::UnknownStyleId
    } else {
        LayoutError::SiblingLayoutOverflow
    }
}

/// The surface after a successful `box_start`: the parent commits the
/// requested share of its axis and the new frame is pushed with fresh
/// progress.
pub open spec fn spec_box_start(
    sv: SurfaceView,
    id: Seq<char>,
    dir: Direction,
    req: RequestedSizePercent,
    style_ids: Seq<Seq<char>>,
) -> SurfaceView {
    let parent = sv.frames.last();
    let prog = sv.progress.last();
    let child = spec_child_frame(parent, prog.used_pct, id, dir, req, sv.sheet, style_ids);
    SurfaceView {
        frames: sv.frames.push(child),
        progress: sv.progress.update(
            sv.progress.len() - 1,
            BoxProgress {
                used_pct: (prog.used_pct + axis_pct(req, parent.dir)) as u16,
                content_rows: prog.content_rows,
            },
        ).push(BoxProgress { used_pct: 0, content_rows: 0 }),
        sheet: sv.sheet,
        queue: sv.queue,
    }
}

/// The surface after a successful `box_end`: the top frame and its
/// progress are popped.
pub open spec fn spec_box_end(sv: SurfaceView) -> SurfaceView {
    SurfaceView {
        frames: sv.frames.drop_last(),
        progress: sv.progress.drop_last(),
        sheet: sv.sheet,
        queue: sv.queue,
    }
}

/// A `box_start` followed immediately by its matching `box_end`, with no
/// children and no content in between, restores the stack of open
/// rectangles and the command queue exactly; only the parent's committed
/// share of its packing axis has advanced, so the next sibling is placed
/// after the closed box.
pub proof fn lemma_box_start_end_restores_stack(
    sv: SurfaceView,
    id: Seq<char>,
    dir: Direction,
    req: RequestedSizePercent,
    style_ids: Seq<Seq<char>>,
)
    requires
        surface_wf(sv),
        box_start_ok(sv, req, style_ids),
    ensures
        spec_box_end(spec_box_start(sv, id, dir, req, style_ids)).frames == sv.frames,
        spec_box_end(spec_box_start(sv, id, dir, req, style_ids)).queue == sv.queue,
        spec_box_end(spec_box_start(sv, id, dir, req, style_ids)).sheet == sv.sheet,
{
    let mid = spec_box_start(sv, id, dir, req, style_ids);
    assert(spec_box_end(mid).frames =~= sv.frames);
    assert(spec_box_end(mid).progress =~= sv.progress.update(
        sv.progress.len() - 1,
        BoxProgress {
            used_pct: (sv.progress.last().used_pct + axis_pct(req, sv.frames.last().dir)) as u16,
            content_rows: sv.progress.last().content_rows,
        },
    ));
}

/// The commands `print_inside_box` appends for `lines`: for each line a
/// cursor move to the box origin column at the next content row, then a
/// plain styled print of the line.
pub open spec fn spec_print_cmds(
    pos: Position,
    start_row: u16,
    lines: Seq<Seq<char>>,
) -> Seq<RenderCommandView>
    decreases lines.len(),
{
    if lines.len() == 0 {
        Seq::empty()
    } else {
        seq![
            RenderCommandView::MoveCursorAbs(
                Position { col: pos.col, row: spec_sat_add(pos.row, start_row) },
            ),
            RenderCommandView::PrintStyledText(lines.first(), None),
        ] + spec_print_cmds(pos, spec_sat_add(start_row, 1), lines.drop_first())
    }
}

/// The content row counter after printing `n` more lines, saturating at
/// the last addressable row.
pub open spec fn spec_row_advance(start: u16, n: nat) -> u16
    decreases n,
{
    if n == 0 {
        start
    } else {
        spec_row_advance(spec_sat_add(start, 1), (n - 1) as nat)
    }
}

/// The per-frame layout context: the stack of open boxes, their packing
/// progress, the active style sheet and the accumulated render command
/// queue. Created by [`Surface::start`], consumed by [`Surface::end`].
#[derive(Debug)]
pub struct Surface {
    frames: Vec<LayoutFrame>,
    progress: Vec<BoxProgress>,
    stylesheet: Stylesheet,
    queue: RenderQueue,
}

impl View for Surface {
    type V = SurfaceView;

    closed spec fn view(&self) -> SurfaceView {
        SurfaceView {
            frames: self.frames@.map_values(|f: LayoutFrame| f@),
            progress: self.progress@,
            sheet: self.stylesheet@,
            queue: self.queue@,
        }
    }
}

impl Surface {
    /// Opens a layout pass over the root rectangle: the stack holds one
    /// anonymous root frame (packing its children horizontally) and the
    /// queue is fresh. Fails with [`LayoutError::InvalidRootSize`] if the
    /// root size has a zero dimension.
    pub fn start(stylesheet: Stylesheet, pos: Position, size: Size) -> (r: Result<
        Surface,
        LayoutError,
    >)
        requires
            pos.col + size.cols <= u16::MAX,
            pos.row + size.rows <= u16::MAX,
            stylesheet.wf(),
        ensures
            r is Ok <==> (size.cols > 0 && size.rows > 0),
            r is Err ==> r == Err::<Surface, LayoutError>(LayoutError::InvalidRootSize),
            r is Ok ==> {
                let sv = r->Ok_0@;
                &&& surface_wf(sv)
                &&& sv.frames =~= seq![
                    FrameView {
                        id: Seq::<char>::empty(),
                        dir: Direction::Horizontal,
                        bounds: Rect { pos, size },
                    },
                ]
                &&& sv.progress =~= seq![BoxProgress { used_pct: 0, content_rows: 0 }]
                &&& sv.sheet == stylesheet@
                &&& sv.queue =~= Seq::<RenderCommandView>::empty()
            },
    {
        if size.cols == 0 || size.rows == 0 {
            return Err(LayoutError::InvalidRootSize);
        }
        let root = LayoutFrame {
            id: String::new(),
            dir: Direction::Horizontal,
            bounds: Rect { pos, size },
        };
        let mut frames: Vec<LayoutFrame> = Vec::new();
        frames.push(root);
        let mut progress: Vec<BoxProgress> = Vec::new();
        progress.push(BoxProgress { used_pct: 0, content_rows: 0 });
        let s = Surface { frames, progress, stylesheet, queue: RenderQueue::new() };
        proof {
            assert(s@.frames =~= seq![
                FrameView {
                    id: Seq::<char>::empty(),
                    dir: Direction::Horizontal,
                    bounds: Rect { pos, size },
                },
            ]);
        }
        Ok(s)
    }

    /// The rectangle of the innermost open box, for content placement;
    /// the stack is not changed.
    pub fn current_box(&self) -> (r: Rect)
        requires
            surface_wf(self@),
        ensures
            r == self@.frames.last().bounds,
    {
        self.frames[self.frames.len() - 1].bounds
    }

    /// Opens a box inside the current one. The child rectangle is placed
    /// immediately after the previously opened siblings along the
    /// parent's direction axis, shrunk by the margins of the named
    /// styles, and becomes the new current box. No render commands are
    /// emitted. Fails, leaving the surface unchanged, if the requested
    /// percentage pair is out of range, a style id is unknown, or the
    /// parent's packing axis would overflow.
    pub fn box_start(&mut self, props: BoxProps) -> (r: Result<(), LayoutError>)
        requires
            surface_wf(old(self)@),
        ensures
            surface_wf(final(self)@),
            r is Ok <==> box_start_ok(old(self)@, props.req_size, props.style_ids.deep_view()),
            r is Ok ==> final(self)@ == spec_box_start(
                old(self)@,
                props.id@,
                props.dir,
                props.req_size,
                props.style_ids.deep_view(),
            ),
            r is Ok ==> rect_contains(
                old(self)@.frames.last().bounds,
                final(self)@.frames.last().bounds,
            ),
            r is Err ==> final(self)@ == old(self)@ && r == Err::<(), LayoutError>(
                spec_box_start_err(old(self)@, props.req_size, props.style_ids.deep_view()),
            ),
    {
        let ghost idsv: Seq<Seq<char>> = props.style_ids.deep_view();
        if props.req_size.width_pct > 100 || props.req_size.height_pct > 100 {
            return Err(LayoutError::InvalidRequestedSizePercentage);
        }
        // Strict style lookup: every named id must exist.
        let nids: usize = props.style_ids.len();
        let mut k: usize = 0;
        while k < nids
            invariant
                surface_wf(self@),
                *self == *old(self),
                req_size_valid(props.req_size),
                nids == props.style_ids.len(),
                idsv == props.style_ids.deep_view(),
                idsv.len() == nids,
                forall|t: int| 0 <= t < nids ==> idsv[t] == props.style_ids@[t]@,
                0 <= k <= nids,
                forall|t: int| 0 <= t < k ==> sheet_has_id(self@.sheet, #[trigger] idsv[t]),
            decreases nids - k,
        {
            if !self.stylesheet.contains_id(&props.style_ids[k]) {
                proof {
                    assert(idsv[k as int] == props.style_ids@[k as int]@);
                    assert(!sheet_has_id(old(self)@.sheet, idsv[k as int]));
                    assert(!box_start_ok(old(self)@, props.req_size, idsv));
                }
                return Err(LayoutError::UnknownStyleId);
            }
            k = k + 1;
        }
        // Packing overflow along the parent's axis.
        let top: usize = self.frames.len() - 1;
        let parent_dir: Direction = self.frames[top].dir;
        let parent_bounds: Rect = self.frames[top].bounds;
        let used: u16 = self.progress[top].used_pct;
        let pct: u16 = match parent_dir {
            Direction::Horizontal => props.req_size.width_pct,
            Direction::Vertical => props.req_size.height_pct,
        };
        if used + pct > 100 {
            return Err(LayoutError::SiblingLayoutOverflow);
        }
        // Resolve the outer child rectangle by cumulative percentages.
        proof {
            lemma_outer_child_in_parent(self@.frames.last(), used, props.req_size);
        }
        let outer: Rect = match parent_dir {
            Direction::Horizontal => {
                let e: u16 = parent_bounds.size.cols;
                let off0: u16 = portion(e, used);
                let off1: u16 = portion(e, used + pct);
                proof {
                    lemma_portion_bounds(e, used, (used + pct) as u16);
                }
                Rect {
                    pos: Position {
                        col: parent_bounds.pos.col + off0,
                        row: parent_bounds.pos.row,
                    },
                    size: Size {
                        cols: off1 - off0,
                        rows: portion(parent_bounds.size.rows, props.req_size.height_pct),
                    },
                }
            },
            Direction::Vertical => {
                let e: u16 = parent_bounds.size.rows;
                let off0: u16 = portion(e, used);
                let off1: u16 = portion(e, used + pct);
                proof {
                    lemma_portion_bounds(e, used, (used + pct) as u16);
                }
                Rect {
                    pos: Position {
                        col: parent_bounds.pos.col,
                        row: parent_bounds.pos.row + off0,
                    },
                    size: Size {
                        cols: portion(parent_bounds.size.cols, props.req_size.width_pct),
                        rows: off1 - off0,
                    },
                }
            },
        };
        proof {
            assert(outer == spec_outer_child_rect(self@.frames.last(), used, props.req_size));
        }
        // Shrink by the margins of the named styles, first style first.
        let styles: Vec<Style> = self.stylesheet.find_styles_by_ids(&props.style_ids);
        let ghost sviews: Seq<StyleView> = spec_find_styles(self@.sheet, idsv);
        let nst: usize = styles.len();
        let mut cur: Rect = outer;
        proof {
            assert(sviews.skip(0) =~= sviews);
        }
        let mut m: usize = 0;
        while m < nst
            invariant
                nst == styles.len(),
                styles@.map_values(|s: Style| s@) == sviews,
                0 <= m <= nst,
                rect_fits(cur),
                spec_apply_margins(outer, sviews) == spec_apply_margins(cur, sviews.skip(m as int)),
            decreases nst - m,
        {
            proof {
                assert(styles@[m as int]@ == sviews[m as int]);
                assert(sviews.skip(m as int).first() == sviews[m as int]);
                assert(sviews.skip(m as int).drop_first() =~= sviews.skip(m + 1));
            }
            let mg: u16 = styles[m].margin_or_zero();
            cur = inset_rect(cur, mg);
            m = m + 1;
        }
        proof {
            assert(sviews.skip(nst as int) =~= Seq::<StyleView>::empty());
            assert(cur == spec_apply_margins(outer, sviews));
            lemma_apply_margins_contained(outer, sviews);
            lemma_rect_contains_trans(parent_bounds, outer, cur);
        }
        // Commit the parent's share and push the child frame.
        let child = LayoutFrame { id: props.id, dir: props.dir, bounds: cur };
        self.progress[top] = BoxProgress { used_pct: used + pct, content_rows: self.progress[top].content_rows };
        self.frames.push(child);
        self.progress.push(BoxProgress { used_pct: 0, content_rows: 0 });
        proof {
            let post = spec_box_start(old(self)@, props.id@, props.dir, props.req_size, idsv);
            assert(self@.frames =~= post.frames);
            assert(self@.progress =~= post.progress);
            assert(self@ =~= post);
            let n = self@.frames.len() as int;
            assert forall|i: int|
                0 <= i < n - 1 implies rect_contains(
                #[trigger] self@.frames[i].bounds,
                self@.frames[i + 1].bounds,
            ) by {
                if i < n - 2 {
                    assert(rect_contains(
                        old(self)@.frames[i].bounds,
                        old(self)@.frames[i + 1].bounds,
                    ));
                }
            }
        }
        Ok(())
    }

    /// Closes the current box, making its parent current again. Fails
    /// with [`LayoutError::MismatchedBoxEnd`], leaving the surface
    /// unchanged, if only the root frame is open.
    pub fn box_end(&mut self) -> (r: Result<(), LayoutError>)
        requires
            surface_wf(old(self)@),
        ensures
            surface_wf(final(self)@),
            r is Ok <==> old(self)@.frames.len() > 1,
            r is Ok ==> final(self)@ == spec_box_end(old(self)@),
            r is Err ==> final(self)@ == old(self)@ && r == Err::<(), LayoutError>(
                LayoutError::MismatchedBoxEnd,
            ),
    {
        if self.frames.len() <= 1 {
            return Err(LayoutError::MismatchedBoxEnd);
        }
        self.frames.pop();
        self.progress.pop();
        proof {
            assert(self@.frames =~= spec_box_end(old(self)@).frames);
            assert(self@ =~= spec_box_end(old(self)@));
        }
        Ok(())
    }

    /// Prints `lines` inside the current box: for each line, a cursor
    /// move to the box's left column at its next free content row, then a
    /// plain print of the line. Rows saturate at the bottom of the
    /// addressable screen; no clipping is performed — out-of-bounds
    /// positions are the backend's concern.
    pub fn print_inside_box(&mut self, lines: &Vec<String>)
        requires
            surface_wf(old(self)@),
        ensures
            surface_wf(final(self)@),
            final(self)@.frames == old(self)@.frames,
            final(self)@.sheet == old(self)@.sheet,
            final(self)@.queue == old(self)@.queue + spec_print_cmds(
                old(self)@.frames.last().bounds.pos,
                old(self)@.progress.last().content_rows,
                lines.deep_view(),
            ),
            final(self)@.progress == old(self)@.progress.update(
                old(self)@.progress.len() - 1,
                BoxProgress {
                    used_pct: old(self)@.progress.last().used_pct,
                    content_rows: spec_row_advance(
                        old(self)@.progress.last().content_rows,
                        lines.deep_view().len(),
                    ),
                },
            ),
    {
        let ghost linesv: Seq<Seq<char>> = lines.deep_view();
        let top: usize = self.frames.len() - 1;
        let pos: Position = self.frames[top].bounds.pos;
        let used: u16 = self.progress[top].used_pct;
        let start_row: u16 = self.progress[top].content_rows;
        let n: usize = lines.len();
        let mut row: u16 = start_row;
        proof {
            assert(linesv.skip(0) =~= linesv);
        }
        let mut i: usize = 0;
        while i < n
            invariant
                surface_wf(self@),
                self@.frames == old(self)@.frames,
                self@.progress == old(self)@.progress,
                self@.sheet == old(self)@.sheet,
                n == lines.len(),
                linesv == lines.deep_view(),
                linesv.len() == n,
                forall|t: int| 0 <= t < n ==> linesv[t] == lines@[t]@,
                0 <= i <= n,
                top == self@.frames.len() - 1,
                pos == self@.frames.last().bounds.pos,
                used == self@.progress.last().used_pct,
                start_row == old(self)@.progress.last().content_rows,
                row == spec_row_advance(start_row, i as nat),
                old(self)@.queue + spec_print_cmds(pos, start_row, linesv) == self@.queue
                    + spec_print_cmds(pos, row, linesv.skip(i as int)),
            decreases n - i,
        {
            proof {
                assert(linesv.skip(i as int).first() == linesv[i as int]);
                assert(linesv.skip(i as int).drop_first() =~= linesv.skip(i + 1));
            }
            let target: Position = Position { col: pos.col, row: sat_add(pos.row, row) };
            self.queue.push(RenderCommand::MoveCursorAbs(target));
            let text: String = lines[i].clone();
            self.queue.push(RenderCommand::PrintStyledText(text, None));
            proof {
                lemma_row_advance_step(start_row, i as nat);
                assert(old(self)@.queue + spec_print_cmds(pos, start_row, linesv) =~= self@.queue
                    + spec_print_cmds(pos, spec_sat_add(row, 1), linesv.skip(i + 1)));
            }
            row = sat_add(row, 1);
            i = i + 1;
        }
        proof {
            assert(linesv.skip(n as int) =~= Seq::<Seq<char>>::empty());
            assert(self@.queue =~= old(self)@.queue + spec_print_cmds(pos, start_row, linesv));
        }
        self.progress[top] = BoxProgress { used_pct: used, content_rows: row };
        proof {
            assert(self@.progress =~= old(self)@.progress.update(
                old(self)@.progress.len() - 1,
                BoxProgress {
                    used_pct: old(self)@.progress.last().used_pct,
                    content_rows: spec_row_advance(
                        old(self)@.progress.last().content_rows,
                        linesv.len(),
                    ),
                },
            ));
        }
    }

    /// Appends one render command to the accumulated queue, for box
    /// decoration or leaf content emitted by the caller against the
    /// current rectangle.
    pub fn push_command(&mut self, cmd: RenderCommand)
        requires
            surface_wf(old(self)@),
        ensures
            surface_wf(final(self)@),
            final(self)@ == (SurfaceView {
                queue: old(self)@.queue.push(cmd@),
                ..old(self)@
            }),
    {
        self.queue.push(cmd);
        proof {
            assert(self@ =~= SurfaceView { queue: old(self)@.queue.push(cmd@), ..old(self)@ });
        }
    }

    /// Appends a whole queue fragment, in order, emptying `fragment`.
    pub fn append_queue(&mut self, fragment: &mut RenderQueue)
        requires
            surface_wf(old(self)@),
        ensures
            surface_wf(final(self)@),
            final(self)@ == (SurfaceView {
                queue: old(self)@.queue + old(fragment)@,
                ..old(self)@
            }),
            final(fragment)@ == Seq::<RenderCommandView>::empty(),
    {
        self.queue.join(fragment);
        proof {
            assert(self@ =~= SurfaceView { queue: old(self)@.queue + old(fragment)@, ..old(self)@ });
        }
    }

    /// The active style sheet of this layout pass.
    pub fn stylesheet(&self) -> (r: &Stylesheet)
        ensures
            r@ == self@.sheet,
            surface_wf(self@) ==> r.wf(),
    {
        &self.stylesheet
    }

    /// Ends the layout pass. With exactly the root frame open it yields
    /// the accumulated queue, unchanged by the call itself; with more
    /// boxes still open it fails with
    /// [`LayoutError::MismatchedSurfaceEnd`] — an unbalanced pass is a
    /// programming error, never silently ignored.
    pub fn end(self) -> (r: Result<RenderQueue, LayoutError>)
        requires
            surface_wf(self@),
        ensures
            r is Ok <==> self@.frames.len() == 1,
            r is Ok ==> r->Ok_0@ == self@.queue,
            r is Err ==> r == Err::<RenderQueue, LayoutError>(LayoutError::MismatchedSurfaceEnd),
    {
        if self.frames.len() != 1 {
            return Err(LayoutError::MismatchedSurfaceEnd);
        }
        Ok(self.queue)
    }
}

/// The sum of a sequence of requested percentages.
pub open spec fn spec_pct_sum(pcts: Seq<u16>) -> int
    decreases pcts.len(),
{
    if pcts.len() == 0 {
        0
    } else {
        spec_pct_sum(pcts.drop_last()) + pcts.last()
    }
}

/// `pct` percent of `extent`, rounded toward zero, for a mathematical
/// percentage.
pub open spec fn spec_portion_int(extent: u16, pct: int) -> int {
    (extent * pct) / 100
}

/// The resolved extent of the `i + 1`-th sibling along the packing axis:
/// the cumulative-percentage cut after it minus the cut before it. This is
/// exactly the axis extent `box_start` gives a child opened when its elder
/// siblings requested `pcts.drop_last()` and it requested `pcts.last()`.
pub open spec fn spec_sibling_extent(extent: u16, pcts: Seq<u16>) -> int {
    spec_portion_int(extent, spec_pct_sum(pcts)) - spec_portion_int(
        extent,
        spec_pct_sum(pcts.drop_last()),
    )
}

/// The total of the resolved extents of a run of siblings along the
/// packing axis.
pub open spec fn spec_extents_sum(extent: u16, pcts: Seq<u16>) -> int
    decreases pcts.len(),
{
    if pcts.len() == 0 {
        0
    } else {
        spec_extents_sum(extent, pcts.drop_last()) + spec_sibling_extent(extent, pcts)
    }
}

/// A sum of percentages is never negative.
pub proof fn lemma_pct_sum_nonneg(pcts: Seq<u16>)
    ensures
        spec_pct_sum(pcts) >= 0,
    decreases pcts.len(),
{
    if pcts.len() > 0 {
        lemma_pct_sum_nonneg(pcts.drop_last());
    }
}

/// Sibling extents telescope: a run of siblings together covers exactly
/// the cumulative-percentage cut of their total request.
pub proof fn lemma_extents_sum_telescopes(extent: u16, pcts: Seq<u16>)
    ensures
        spec_extents_sum(extent, pcts) == spec_portion_int(extent, spec_pct_sum(pcts)),
    decreases pcts.len(),
{
    if pcts.len() == 0 {
    } else {
        lemma_extents_sum_telescopes(extent, pcts.drop_last());
    }
}

/// For any run of sibling boxes packed along a parent's direction axis
/// whose requested percentages sum to at most 100, the sum of their
/// resolved extents along that axis never exceeds the parent's extent.
pub proof fn lemma_siblings_fit(extent: u16, pcts: Seq<u16>)
    requires
        spec_pct_sum(pcts) <= 100,
    ensures
        0 <= spec_extents_sum(extent, pcts) <= extent,
{
    lemma_extents_sum_telescopes(extent, pcts);
    lemma_pct_sum_nonneg(pcts);
    let s = spec_pct_sum(pcts);
    vstd::arithmetic::mul::lemma_mul_inequality(s, 100, extent as int);
    vstd::arithmetic::mul::lemma_mul_nonnegative(extent as int, s);
    vstd::arithmetic::div_mod::lemma_div_is_ordered(extent * s, extent * 100, 100);
    vstd::arithmetic::div_mod::lemma_div_multiples_vanish(extent as int, 100);
    vstd::arithmetic::div_mod::lemma_div_pos_is_pos(extent * s, 100);
}

/// The tie between the packing law and `box_start`: a child opened after
/// elder siblings whose requests sum to `used_pct` resolves, along the
/// parent's axis, to exactly the sibling extent of the run ending with
/// its own request. With [`lemma_siblings_fit`] this shows the sum of
/// the resolved extents of any admissible run of siblings never exceeds
/// the parent's extent.
pub proof fn lemma_box_start_extent_is_sibling_extent(
    parent: FrameView,
    pcts: Seq<u16>,
    req: RequestedSizePercent,
)
    requires
        pcts.len() > 0,
        axis_pct(req, parent.dir) == pcts.last(),
        spec_pct_sum(pcts) <= 100,
    ensures
        ({
            let used = spec_pct_sum(pcts.drop_last());
            let outer = spec_outer_child_rect(parent, used as u16, req);
            axis_extent(outer, parent.dir) == spec_sibling_extent(
                axis_extent(parent.bounds, parent.dir),
                pcts,
            )
        }),
{
    lemma_pct_sum_nonneg(pcts.drop_last());
    let used = spec_pct_sum(pcts.drop_last());
    let e = axis_extent(parent.bounds, parent.dir);
    lemma_portion_bounds(e, used as u16, (used + pcts.last()) as u16);
    match parent.dir {
        Direction::Horizontal => {
            assert(spec_pct_sum(pcts) == used + req.width_pct);
        },
        Direction::Vertical => {
            assert(spec_pct_sum(pcts) == used + req.height_pct);
        },
    }
}

/// Advancing one row from a run of `n` is advancing a run of `n + 1`.
proof fn lemma_row_advance_step(start: u16, n: nat)
    ensures
        spec_sat_add(spec_row_advance(start, n), 1) == spec_row_advance(start, n + 1),
    decreases n,
{
    assert(spec_row_advance(start, n + 1) == spec_row_advance(spec_sat_add(start, 1), n));
    if n == 0 {
        assert(spec_row_advance(spec_sat_add(start, 1), 0) == spec_sat_add(start, 1));
    } else {
        lemma_row_advance_step(spec_sat_add(start, 1), (n - 1) as nat);
    }
}

} // verus!
