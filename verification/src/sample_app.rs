//! A small demo wiring of the engine: a two-column layout whose columns
//! are components, a counter state advanced by a reducer, and the style
//! sheet decorating the columns.
//!
//! This module doubles as the reference consumer of the [`Component`] and
//! [`Reducer`] traits: both implementations are verified against their
//! spec functions.

use vstd::prelude::*;

use crate::component::Component;
use crate::component::ComponentRegistry;
use crate::component::make_box;
use crate::component::RegistryEntryView;
use crate::component::registry_has_id;
use crate::component::spec_make_box;
use crate::dimens::Direction;
use crate::dimens::Position;
use crate::dimens::Rect;
use crate::dimens::RequestedSizePercent;
use crate::dimens::Size;
use crate::dimens::spec_sub_clamped;
use crate::dimens::sub_clamped;
use crate::events::EventPropagation;
use crate::events::InputEvent;
use crate::events::Keypress;
use crate::events::SpecialKey;
use crate::focus::HasFocus;
use crate::layout_error::LayoutError;
use crate::render_queue::RenderCommand;
use crate::render_queue::RenderCommandView;
use crate::render_queue::RenderQueue;
use crate::store::Reducer;
use crate::store::Store;
use crate::store::StoreError;
use crate::style::Color;
use crate::style::Style;
use crate::style::StyleView;
use crate::style::TextAttributes;
use crate::stylesheet::Stylesheet;
use crate::stylesheet::sheet_has_id;
use crate::surface::BoxProgress;
use crate::surface::BoxProps;
use crate::surface::FrameView;
use crate::surface::Surface;
use crate::surface::SurfaceView;
use crate::surface::box_start_ok;
use crate::surface::spec_box_end;
use crate::surface::spec_box_start;
use crate::surface::surface_wf;
use crate::utils::spec_exit_hints_cmds;

verus! {

/// The demo application state: one counter.
#[derive(Clone, Copy, Debug, PartialEq, Eq, Structural)]
pub struct AppState {
    pub count: i64,
}

/// The demo actions: add to or subtract from the counter.
#[derive(Clone, Copy, Debug, PartialEq, Eq, Structural)]
pub enum AppAction {
    AddPop(i64),
    SubPop(i64),
}

/// `a + b`, clamped at the `i64` range.
pub open spec fn spec_sat_add_i64(a: i64, b: i64) -> i64 {
    if a + b > i64::MAX {
        i64::MAX
    } else if a + b < i64::MIN {
        i64::MIN
    } else {
        (a + b) as i64
    }
}

/// `a - b`, clamped at the `i64` range.
pub open spec fn spec_sat_sub_i64(a: i64, b: i64) -> i64 {
    if a - b > i64::MAX {
        i64::MAX
    } else if a - b < i64::MIN {
        i64::MIN
    } else {
        (a - b) as i64
    }
}

/// Adds two counters, clamping at the `i64` range.
fn sat_add_i64(a: i64, b: i64) -> (r: i64)
    ensures
        r == spec_sat_add_i64(a, b),
{
    let wide: i128 = (a as i128) + (b as i128);
    if wide > (i64::MAX as i128) {
        i64::MAX
    } else if wide < (i64::MIN as i128) {
        i64::MIN
    } else {
        wide as i64
    }
}

/// Subtracts two counters, clamping at the `i64` range.
fn sat_sub_i64(a: i64, b: i64) -> (r: i64)
    ensures
        r == spec_sat_sub_i64(a, b),
{
    let wide: i128 = (a as i128) - (b as i128);
    if wide > (i64::MAX as i128) {
        i64::MAX
    } else if wide < (i64::MIN as i128) {
        i64::MIN
    } else {
        wide as i64
    }
}

/// The demo reducer: applies an action to the counter with saturating
/// arithmetic. It never signals a store error.
#[derive(Clone, Copy, Debug, PartialEq, Eq, Structural)]
pub struct AppReducer;

impl Reducer<AppState, AppAction> for AppReducer {
    open spec fn spec_run(&self, state: AppState, action: AppAction) -> Result<
        AppState,
        StoreError,
    > {
        match action {
            AppAction::AddPop(n) => Ok(AppState { count: spec_sat_add_i64(state.count, n) }),
            AppAction::SubPop(n) => Ok(AppState { count: spec_sat_sub_i64(state.count, n) }),
        }
    }

    fn run(&self, state: &AppState, action: &AppAction) -> (r: Result<AppState, StoreError>) {
        match action {
            AppAction::AddPop(n) => Ok(AppState { count: sat_add_i64(state.count, *n) }),
            AppAction::SubPop(n) => Ok(AppState { count: sat_sub_i64(state.count, *n) }),
        }
    }
}

/// A store over the demo state with the demo reducer registered, starting
/// from a zero counter.
pub fn create_store() -> (r: Store<AppState, AppReducer>)
    ensures
        r@.state == (AppState { count: 0 }),
        r@.reducers == seq![AppReducer],
{
    let mut store: Store<AppState, AppReducer> = Store::new(AppState { count: 0 });
    store.add_reducer(AppReducer);
    proof {
        assert(store@.reducers =~= seq![AppReducer]);
    }
    store
}

/// The event is a counter increment: a typed `+` or a plain Up key.
pub open spec fn spec_increment_event(event: InputEvent) -> bool {
    ||| event == InputEvent::DisplayableKeypress('+')
    ||| event == InputEvent::NonDisplayableKeypress(
        Keypress { maybe_modifier_keys: None, key: SpecialKey::Up },
    )
}

/// The event is a counter decrement: a typed `-` or a plain Down key.
pub open spec fn spec_decrement_event(event: InputEvent) -> bool {
    ||| event == InputEvent::DisplayableKeypress('-')
    ||| event == InputEvent::NonDisplayableKeypress(
        Keypress { maybe_modifier_keys: None, key: SpecialKey::Down },
    )
}

/// The actions a column asks the shell to dispatch for an event.
pub open spec fn spec_adjust_actions(event: InputEvent) -> Seq<AppAction> {
    if spec_increment_event(event) {
        seq![AppAction::AddPop(1)]
    } else if spec_decrement_event(event) {
        seq![AppAction::SubPop(1)]
    } else {
        Seq::empty()
    }
}

/// The demo column component: renders its label at the top left corner of
/// its assigned rectangle, and turns increment and decrement keys into
/// counter actions.
#[derive(Debug)]
pub struct ColumnRenderComponent {
    pub label: String,
}

impl Component<AppState, AppAction> for ColumnRenderComponent {
    open spec fn event_outcome(&self, event: InputEvent, state: AppState) -> EventPropagation {
        if spec_increment_event(event) || spec_decrement_event(event) {
            EventPropagation::Consumed
        } else {
            EventPropagation::Propagate
        }
    }

    open spec fn event_next(&self, event: InputEvent, state: AppState) -> ColumnRenderComponent {
        *self
    }

    open spec fn event_actions(&self, event: InputEvent, state: AppState) -> Seq<AppAction> {
        spec_adjust_actions(event)
    }

    open spec fn render_cmds(
        &self,
        focus_id: Option<Seq<char>>,
        bounds: Rect,
        state: AppState,
    ) -> Seq<RenderCommandView> {
        seq![
            RenderCommandView::MoveCursorAbs(bounds.pos),
            RenderCommandView::PrintStyledText(self.label@, None),
        ]
    }

    open spec fn render_next(
        &self,
        focus_id: Option<Seq<char>>,
        bounds: Rect,
        state: AppState,
    ) -> ColumnRenderComponent {
        *self
    }

    fn handle_event(&mut self, event: &InputEvent, state: &AppState) -> (r: (
        EventPropagation,
        Vec<AppAction>,
    )) {
        let increment: bool = match event {
            InputEvent::DisplayableKeypress(c) => *c == '+',
            InputEvent::NonDisplayableKeypress(kp) => kp.maybe_modifier_keys.is_none() && matches!(
                kp.key,
                SpecialKey::Up,
            ),
        };
        let decrement: bool = match event {
            InputEvent::DisplayableKeypress(c) => *c == '-',
            InputEvent::NonDisplayableKeypress(kp) => kp.maybe_modifier_keys.is_none() && matches!(
                kp.key,
                SpecialKey::Down,
            ),
        };
        if increment {
            let mut actions: Vec<AppAction> = Vec::new();
            actions.push(AppAction::AddPop(1));
            proof {
                assert(actions@ =~= spec_adjust_actions(*event));
            }
            (EventPropagation::Consumed, actions)
        } else if decrement {
            let mut actions: Vec<AppAction> = Vec::new();
            actions.push(AppAction::SubPop(1));
            proof {
                assert(actions@ =~= spec_adjust_actions(*event));
            }
            (EventPropagation::Consumed, actions)
        } else {
            let actions: Vec<AppAction> = Vec::new();
            proof {
                assert(actions@ =~= spec_adjust_actions(*event));
            }
            (EventPropagation::Propagate, actions)
        }
    }

    fn render(&mut self, has_focus: &HasFocus, bounds: Rect, state: &AppState) -> (q: RenderQueue) {
        let mut q = RenderQueue::new();
        q.push(RenderCommand::MoveCursorAbs(bounds.pos));
        q.push(RenderCommand::PrintStyledText(self.label.clone(), None));
        proof {
            assert(q@ =~= self.render_cmds(has_focus@, bounds, *state));
        }
        q
    }
}

/// Registers the two column components (when absent — registration is
/// idempotent) and gives the left column focus when nothing holds it yet.
pub fn create_components_populate_registry_init_focus(
    registry: &mut ComponentRegistry<ColumnRenderComponent>,
    has_focus: &mut HasFocus,
)
    requires
        old(registry).wf(),
    ensures
        final(registry).wf(),
        registry_has_id(final(registry)@, "col_1"@),
        registry_has_id(final(registry)@, "col_2"@),
        forall|i: int|
            0 <= i < old(registry)@.len() ==> final(registry)@[i] == old(registry)@[i],
        old(registry)@.len() == 0 ==> {
            &&& final(registry)@.len() == 2
            &&& final(registry)@[0].id == "col_1"@
            &&& final(registry)@[0].component.label@ == "col 1"@
            &&& final(registry)@[1].id == "col_2"@
            &&& final(registry)@[1].component.label@ == "col 2"@
        },
        old(has_focus)@ is None ==> final(has_focus)@ == Some("col_1"@),
        old(has_focus)@ is Some ==> final(has_focus)@ == old(has_focus)@,
{
    proof {
        reveal_strlit("col_1");
        reveal_strlit("col_2");
        assert("col_1"@[4] == '1');
        assert("col_2"@[4] == '2');
    }
    let col_1: String = "col_1".to_owned();
    if registry.id_does_not_exist(&col_1) {
        registry.put(col_1, ColumnRenderComponent { label: "col 1".to_owned() });
        proof {
            assert(registry@[registry@.len() - 1].id == "col_1"@);
            assert(registry@[registry@.len() - 1].component.label@ == "col 1"@);
        }
    }
    proof {
        assert(registry_has_id(registry@, "col_1"@));
    }
    let ghost w1: int = choose|i: int|
        0 <= i < registry@.len() && registry@[i].id == "col_1"@;
    let col_2: String = "col_2".to_owned();
    if registry.id_does_not_exist(&col_2) {
        registry.put(col_2, ColumnRenderComponent { label: "col 2".to_owned() });
        proof {
            assert(registry@[registry@.len() - 1].id == "col_2"@);
            assert(registry@[registry@.len() - 1].component.label@ == "col 2"@);
        }
    }
    proof {
        assert(registry_has_id(registry@, "col_2"@));
        assert(registry@[w1].id == "col_1"@);
        assert(registry_has_id(registry@, "col_1"@));
        if old(registry)@.len() == 0 {
            assert(registry@.len() == 2);
            assert(registry@[0].id == "col_1"@);
            assert(registry@[0].component.label@ == "col 1"@);
            assert(registry@[1].id == "col_2"@);
            assert(registry@[1].component.label@ == "col 2"@);
        }
    }
    if !has_focus.is_set() {
        has_focus.set_id("col_1".to_owned());
    }
}

/// The style decorating the left column: a one-cell margin over a dark
/// blue background.
pub fn create_style1() -> (r: Style)
    ensures
        r@ == (StyleView {
            id: "style1"@,
            color_fg: None::<Color>,
            color_bg: Some(Color::Rgb { r: 55, g: 55, b: 100 }),
            margin: Some(1u16),
            attribs: None::<TextAttributes>,
        }),
{
    Style {
        id: "style1".to_owned(),
        color_fg: None,
        color_bg: Some(Color::Rgb { r: 55, g: 55, b: 100 }),
        margin: Some(1),
        attribs: None,
    }
}

/// The style decorating the right column: a one-cell margin over a
/// lighter blue background.
pub fn create_style2() -> (r: Style)
    ensures
        r@ == (StyleView {
            id: "style2"@,
            color_fg: None::<Color>,
            color_bg: Some(Color::Rgb { r: 55, g: 55, b: 248 }),
            margin: Some(1u16),
            attribs: None::<TextAttributes>,
        }),
{
    Style {
        id: "style2".to_owned(),
        color_fg: None,
        color_bg: Some(Color::Rgb { r: 55, g: 55, b: 248 }),
        margin: Some(1),
        attribs: None,
    }
}

/// The sheet holding the two column styles.
pub fn create_stylesheet() -> (r: Result<Stylesheet, LayoutError>)
    ensures
        r is Ok,
        r is Ok ==> {
            let sheet = r->Ok_0;
            &&& sheet.wf()
            &&& sheet@.len() == 2
            &&& sheet_has_id(sheet@, "style1"@)
            &&& sheet_has_id(sheet@, "style2"@)
            &&& sheet@[0] == create_style1_view()
            &&& sheet@[1] == create_style2_view()
        },
{
    let mut sheet = Stylesheet::new();
    let mut styles: Vec<Style> = Vec::new();
    styles.push(create_style1());
    styles.push(create_style2());
    proof {
        reveal_strlit("style1");
        reveal_strlit("style2");
        assert("style1"@[5] == '1');
        assert("style2"@[5] == '2');
        assert("style1"@ != "style2"@);
    }
    let added = sheet.add_styles(styles);
    proof {
        assert(added is Ok);
        assert(sheet@[0] == create_style1_view());
        assert(sheet@[1] == create_style2_view());
        assert(sheet_has_id(sheet@, "style1"@));
        assert(sheet_has_id(sheet@, "style2"@));
    }
    match added {
        Ok(()) => Ok(sheet),
        Err(e) => Err(e),
    }
}

/// The record `create_style1` builds.
pub open spec fn create_style1_view() -> StyleView {
    StyleView {
        id: "style1"@,
        color_fg: None,
        color_bg: Some(Color::Rgb { r: 55, g: 55, b: 100 }),
        margin: Some(1u16),
        attribs: None,
    }
}

/// The record `create_style2` builds.
pub open spec fn create_style2_view() -> StyleView {
    StyleView {
        id: "style2"@,
        color_fg: None,
        color_bg: Some(Color::Rgb { r: 55, g: 55, b: 248 }),
        margin: Some(1u16),
        attribs: None,
    }
}

/// The size request of the main container: the whole parent.
pub open spec fn spec_req_full() -> RequestedSizePercent {
    RequestedSizePercent { width_pct: 100, height_pct: 100 }
}

/// The size request of one column: half the width, full height.
pub open spec fn spec_req_column() -> RequestedSizePercent {
    RequestedSizePercent { width_pct: 50, height_pct: 100 }
}

/// Opens the left column box (`col_1`, vertical, half the container,
/// styled by `style1`) and renders the component registered under its id
/// into it.
pub fn create_left_col(
    surface: &mut Surface,
    registry: &mut ComponentRegistry<ColumnRenderComponent>,
    has_focus: &HasFocus,
    state: &AppState,
) -> (r: Result<(), LayoutError>)
    requires
        surface_wf(old(surface)@),
        old(registry).wf(),
    ensures
        surface_wf(final(surface)@),
        final(registry).wf(),
        r is Ok <==> box_start_ok(old(surface)@, spec_req_column(), seq!["style1"@]),
        r is Err ==> final(surface)@ == old(surface)@ && final(registry)@ == old(registry)@,
        r is Ok ==> {
            let (sv2, reg2) = spec_make_box(
                old(surface)@,
                old(registry)@,
                has_focus@,
                *state,
                "col_1"@,
                Direction::Vertical,
                spec_req_column(),
                seq!["style1"@],
            );
            &&& final(surface)@ == sv2
            &&& final(registry)@ == reg2
        },
{
    let mut style_ids: Vec<String> = Vec::new();
    style_ids.push("style1".to_owned());
    let props = BoxProps {
        id: "col_1".to_owned(),
        dir: Direction::Vertical,
        req_size: RequestedSizePercent { width_pct: 50, height_pct: 100 },
        style_ids,
    };
    proof {
        assert(props.style_ids.deep_view() =~= seq!["style1"@]);
    }
    make_box(surface, props, registry, has_focus, state)
}

/// Opens the right column box (`col_2`, vertical, half the container,
/// styled by `style2`) and renders the component registered under its id
/// into it.
pub fn create_right_col(
    surface: &mut Surface,
    registry: &mut ComponentRegistry<ColumnRenderComponent>,
    has_focus: &HasFocus,
    state: &AppState,
) -> (r: Result<(), LayoutError>)
    requires
        surface_wf(old(surface)@),
        old(registry).wf(),
    ensures
        surface_wf(final(surface)@),
        final(registry).wf(),
        r is Ok <==> box_start_ok(old(surface)@, spec_req_column(), seq!["style2"@]),
        r is Err ==> final(surface)@ == old(surface)@ && final(registry)@ == old(registry)@,
        r is Ok ==> {
            let (sv2, reg2) = spec_make_box(
                old(surface)@,
                old(registry)@,
                has_focus@,
                *state,
                "col_2"@,
                Direction::Vertical,
                spec_req_column(),
                seq!["style2"@],
            );
            &&& final(surface)@ == sv2
            &&& final(registry)@ == reg2
        },
{
    let mut style_ids: Vec<String> = Vec::new();
    style_ids.push("style2".to_owned());
    let props = BoxProps {
        id: "col_2".to_owned(),
        dir: Direction::Vertical,
        req_size: RequestedSizePercent { width_pct: 50, height_pct: 100 },
        style_ids,
    };
    proof {
        assert(props.style_ids.deep_view() =~= seq!["style2"@]);
    }
    make_box(surface, props, registry, has_focus, state)
}

/// Declares the whole demo tree: a horizontal container over the full
/// root, holding the left and right columns. On success the stack of open
/// rectangles is exactly as before the call. On failure the pass is
/// meant to be aborted and the surface discarded: the frame is skipped.
pub fn create_main_container(
    surface: &mut Surface,
    registry: &mut ComponentRegistry<ColumnRenderComponent>,
    has_focus: &HasFocus,
    state: &AppState,
) -> (r: Result<(), LayoutError>)
    requires
        surface_wf(old(surface)@),
        old(registry).wf(),
    ensures
        surface_wf(final(surface)@),
        final(registry).wf(),
        final(surface)@.sheet == old(surface)@.sheet,
        r is Ok <==> ({
            &&& box_start_ok(old(surface)@, spec_req_full(), Seq::<Seq<char>>::empty())
            &&& sheet_has_id(old(surface)@.sheet, "style1"@)
            &&& sheet_has_id(old(surface)@.sheet, "style2"@)
        }),
        r is Ok ==> {
            let s1 = spec_box_start(
                old(surface)@,
                "container"@,
                Direction::Horizontal,
                spec_req_full(),
                Seq::<Seq<char>>::empty(),
            );
            let (s2, reg2) = spec_make_box(
                s1,
                old(registry)@,
                has_focus@,
                *state,
                "col_1"@,
                Direction::Vertical,
                spec_req_column(),
                seq!["style1"@],
            );
            let (s3, reg3) = spec_make_box(
                s2,
                reg2,
                has_focus@,
                *state,
                "col_2"@,
                Direction::Vertical,
                spec_req_column(),
                seq!["style2"@],
            );
            &&& final(surface)@ == spec_box_end(s3)
            &&& final(registry)@ == reg3
            &&& final(surface)@.frames == old(surface)@.frames
        },
{
    let ghost sv = old(surface)@;
    let ghost s1 = spec_box_start(
        sv,
        "container"@,
        Direction::Horizontal,
        spec_req_full(),
        Seq::<Seq<char>>::empty(),
    );
    let props = BoxProps {
        id: "container".to_owned(),
        dir: Direction::Horizontal,
        req_size: RequestedSizePercent { width_pct: 100, height_pct: 100 },
        style_ids: Vec::new(),
    };
    proof {
        assert(props.style_ids.deep_view() =~= Seq::<Seq<char>>::empty());
    }
    match surface.box_start(props) {
        Ok(()) => {},
        Err(e) => {
            return Err(e);
        },
    }
    proof {
        assert(surface@ == s1);
        assert(s1.progress.last() == (BoxProgress { used_pct: 0, content_rows: 0 }));
        assert(s1.frames.last().dir == Direction::Horizontal);
        assert(s1.sheet == sv.sheet);
    }
    match create_left_col(surface, registry, has_focus, state) {
        Ok(()) => {},
        Err(e) => {
            proof {
                if sheet_has_id(sv.sheet, "style1"@) {
                    let ids = seq!["style1"@];
                    assert forall|k: int| 0 <= k < ids.len() implies sheet_has_id(
                        s1.sheet,
                        #[trigger] ids[k],
                    ) by {
                        assert(ids[k] == "style1"@);
                    }
                    assert(box_start_ok(s1, spec_req_column(), ids));
                    assert(false);
                }
            }
            return Err(e);
        },
    }
    let ghost s2r = spec_make_box(
        s1,
        old(registry)@,
        has_focus@,
        *state,
        "col_1"@,
        Direction::Vertical,
        spec_req_column(),
        seq!["style1"@],
    );
    proof {
        assert(surface@ == s2r.0);
        let mid2 = spec_box_start(s1, "col_1"@, Direction::Vertical, spec_req_column(), seq![
            "style1"@,
        ]);
        assert(mid2.progress.drop_last() =~= s1.progress.update(
            s1.progress.len() - 1,
            BoxProgress { used_pct: 50, content_rows: 0 },
        ));
        assert(s2r.0.progress.last() == (BoxProgress { used_pct: 50, content_rows: 0 }));
        assert(s2r.0.frames == s1.frames);
        assert(s2r.0.sheet == sv.sheet);
    }
    match create_right_col(surface, registry, has_focus, state) {
        Ok(()) => {},
        Err(e) => {
            proof {
                if sheet_has_id(sv.sheet, "style2"@) {
                    let ids = seq!["style2"@];
                    assert forall|k: int| 0 <= k < ids.len() implies sheet_has_id(
                        s2r.0.sheet,
                        #[trigger] ids[k],
                    ) by {
                        assert(ids[k] == "style2"@);
                    }
                    assert(box_start_ok(s2r.0, spec_req_column(), ids));
                    assert(false);
                }
            }
            return Err(e);
        },
    }
    let ghost s3r = spec_make_box(
        s2r.0,
        s2r.1,
        has_focus@,
        *state,
        "col_2"@,
        Direction::Vertical,
        spec_req_column(),
        seq!["style2"@],
    );
    proof {
        assert(surface@ == s3r.0);
        assert(s3r.0.frames == s1.frames);
        assert(s3r.0.frames.len() == sv.frames.len() + 1);
    }
    let ended = surface.box_end();
    proof {
        assert(ended is Ok);
        assert(surface@ == spec_box_end(s3r.0));
        assert(spec_box_end(s3r.0).frames =~= sv.frames);
    }
    match ended {
        Ok(()) => Ok(()),
        Err(e) => Err(e),
    }
}

/// The root rectangle of one demo frame: the whole window except the
/// bottom row, which is kept for the hint bar.
pub open spec fn spec_app_root_view(window_size: Size) -> SurfaceView {
    SurfaceView {
        frames: seq![
            FrameView {
                id: Seq::<char>::empty(),
                dir: Direction::Horizontal,
                bounds: Rect {
                    pos: Position { col: 0, row: 0 },
                    size: Size {
                        cols: window_size.cols,
                        rows: spec_sub_clamped(window_size.rows, 1),
                    },
                },
            },
        ],
        progress: seq![BoxProgress { used_pct: 0, content_rows: 0 }],
        sheet: seq![create_style1_view(), create_style2_view()],
        queue: Seq::<RenderCommandView>::empty(),
    }
}

/// The full queue of one demo frame over an already populated registry:
/// the container with its two columns, then the hint bar.
pub open spec fn spec_app_frame(
    reg: Seq<RegistryEntryView<ColumnRenderComponent>>,
    focus: Option<Seq<char>>,
    state: AppState,
    window_size: Size,
) -> (Seq<RenderCommandView>, Seq<RegistryEntryView<ColumnRenderComponent>>) {
    let s1 = spec_box_start(
        spec_app_root_view(window_size),
        "container"@,
        Direction::Horizontal,
        spec_req_full(),
        Seq::<Seq<char>>::empty(),
    );
    let (s2, reg2) = spec_make_box(
        s1,
        reg,
        focus,
        state,
        "col_1"@,
        Direction::Vertical,
        spec_req_column(),
        seq!["style1"@],
    );
    let (s3, reg3) = spec_make_box(
        s2,
        reg2,
        focus,
        state,
        "col_2"@,
        Direction::Vertical,
        spec_req_column(),
        seq!["style2"@],
    );
    (s3.queue + spec_exit_hints_cmds(window_size), reg3)
}

/// Renders one whole frame of the demo app: the demo style sheet, a
/// fresh surface over the window minus its bottom row, the container with
/// its two columns, and the hint bar appended to the finished queue.
/// Fails with [`LayoutError::InvalidRootSize`] when the window leaves no
/// room above the hint bar. The registry must already be populated — see
/// [`create_components_populate_registry_init_focus`].
pub fn app_render(
    registry: &mut ComponentRegistry<ColumnRenderComponent>,
    has_focus: &HasFocus,
    state: &AppState,
    window_size: Size,
) -> (r: Result<RenderQueue, LayoutError>)
    requires
        old(registry).wf(),
    ensures
        final(registry).wf(),
        r is Ok <==> (window_size.cols > 0 && window_size.rows > 1),
        r is Err ==> r == Err::<RenderQueue, LayoutError>(LayoutError::InvalidRootSize)
            && final(registry)@ == old(registry)@,
        r is Ok ==> {
            let (cmds, reg3) = spec_app_frame(old(registry)@, has_focus@, *state, window_size);
            &&& r->Ok_0@ == cmds
            &&& final(registry)@ == reg3
        },
{
    let sheet = match create_stylesheet() {
        Ok(s) => s,
        Err(e) => {
            return Err(e);
        },
    };
    proof {
        assert(sheet@ =~= seq![create_style1_view(), create_style2_view()]);
    }
    let root_rows: u16 = sub_clamped(window_size.rows, 1);
    let mut surface = match Surface::start(
        sheet,
        Position { col: 0, row: 0 },
        Size { cols: window_size.cols, rows: root_rows },
    ) {
        Ok(s) => s,
        Err(e) => {
            return Err(e);
        },
    };
    proof {
        assert(surface@ =~= spec_app_root_view(window_size));
        assert(sheet_has_id(surface@.sheet, "style1"@)) by {
            assert(surface@.sheet[0].id == "style1"@);
        }
        assert(sheet_has_id(surface@.sheet, "style2"@)) by {
            assert(surface@.sheet[1].id == "style2"@);
        }
    }
    match create_main_container(&mut surface, registry, has_focus, state) {
        Ok(()) => {},
        Err(e) => {
            proof {
                assert(false);
            }
            return Err(e);
        },
    }
    let mut queue = match surface.end() {
        Ok(q) => q,
        Err(e) => {
            proof {
                assert(false);
            }
            return Err(e);
        },
    };
    crate::utils::render(&mut queue, window_size);
    Ok(queue)
}

} // verus!
