//! The component registry and the event-routing layer.
//!
//! A component is polymorphic consumer code: it renders itself into a
//! render-command fragment given its assigned rectangle, and handles an
//! input event by returning a propagation outcome plus the actions it
//! wants dispatched to the store. The registry maps component ids to
//! component instances; a separate [`HasFocus`] tracker names the single
//! component eligible to receive input.
//!
//! Routing an event first offers it to the focus-switch handler; a
//! consumed focus switch always forces a redraw. Otherwise the event goes
//! to the focused component and that component's own outcome becomes the
//! routing result; with no focused component the event propagates
//! un-consumed.

use vstd::prelude::*;

use crate::dimens::Rect;
use crate::events::EventPropagation;
use crate::events::InputEvent;
use crate::focus::HasFocus;
use crate::focus::handle_left_right_input_to_switch_focus;
use crate::focus::spec_is_focus_switch_event;
use crate::focus::spec_switch_target;
use crate::layout_error::LayoutError;
use crate::render_queue::RenderCommandView;
use crate::render_queue::RenderQueue;
use crate::surface::BoxProps;
use crate::surface::Surface;
use crate::surface::SurfaceView;
use crate::surface::box_start_ok;
use crate::surface::spec_box_end;
use crate::surface::spec_box_start;
use crate::surface::spec_box_start_err;
use crate::surface::surface_wf;

verus! {

/// A UI component: the consumer supplies the implementation, the engine
/// only routes rectangles and events to it.
///
/// The spec functions name, for each instance, what its two capabilities
/// return and how they change it; a verified implementation overrides
/// them with their real meaning and proves its executable methods against
/// them. Their defaults are arbitrary: an implementation that keeps them
/// promises nothing.
pub trait Component<S, A>: Sized {
    /// The propagation outcome `handle_event` reports.
    open spec fn event_outcome(&self, event: InputEvent, state: S) -> EventPropagation {
        arbitrary()
    }

    /// The component state `handle_event` leaves behind.
    open spec fn event_next(&self, event: InputEvent, state: S) -> Self {
        arbitrary()
    }

    /// The actions `handle_event` asks the shell to dispatch.
    open spec fn event_actions(&self, event: InputEvent, state: S) -> Seq<A> {
        arbitrary()
    }

    /// The command fragment `render` produces.
    open spec fn render_cmds(
        &self,
        focus_id: Option<Seq<char>>,
        bounds: Rect,
        state: S,
    ) -> Seq<RenderCommandView> {
        arbitrary()
    }

    /// The component state `render` leaves behind.
    open spec fn render_next(&self, focus_id: Option<Seq<char>>, bounds: Rect, state: S) -> Self {
        arbitrary()
    }

    /// Handles one input event against the current application state,
    /// returning the propagation outcome and the actions to dispatch.
    fn handle_event(&mut self, event: &InputEvent, state: &S) -> (r: (EventPropagation, Vec<A>))
        ensures
            r.0 == old(self).event_outcome(*event, *state),
            r.1@ == old(self).event_actions(*event, *state),
            *final(self) == old(self).event_next(*event, *state),
    ;

    /// Renders the component into its assigned rectangle.
    fn render(&mut self, has_focus: &HasFocus, bounds: Rect, state: &S) -> (q: RenderQueue)
        ensures
            q@ == old(self).render_cmds(has_focus@, bounds, *state),
            *final(self) == old(self).render_next(has_focus@, bounds, *state),
    ;
}

/// The focus invariant failure: a focus id is set but names no
/// registered component at render or dispatch time.
#[derive(Clone, Copy, Debug, PartialEq, Eq, Structural)]
pub enum FocusError {
    FocusIdNotRegistered,
}

/// One registry slot: a component stored under an id.
pub struct RegistryEntry<C> {
    pub id: String,
    pub component: C,
}

/// The mathematical value of a registry slot.
#[verifier::ext_equal]
pub struct RegistryEntryView<C> {
    pub id: Seq<char>,
    pub component: C,
}

impl<C> View for RegistryEntry<C> {
    type V = RegistryEntryView<C>;

    open spec fn view(&self) -> RegistryEntryView<C> {
        RegistryEntryView { id: self.id@, component: self.component }
    }
}

/// Some slot in `entries` carries the id `id`.
pub open spec fn registry_has_id<C>(entries: Seq<RegistryEntryView<C>>, id: Seq<char>) -> bool {
    exists|i: int| 0 <= i < entries.len() && entries[i].id == id
}

/// The index of the slot stored under `id` (meaningful only when
/// [`registry_has_id`] holds and ids are unique).
pub open spec fn registry_index_of<C>(entries: Seq<RegistryEntryView<C>>, id: Seq<char>) -> int {
    choose|i: int| 0 <= i < entries.len() && entries[i].id == id
}

/// All slot ids are distinct.
pub open spec fn registry_ids_unique<C>(entries: Seq<RegistryEntryView<C>>) -> bool {
    forall|i: int, j: int| 0 <= i < j < entries.len() ==> entries[i].id != entries[j].id
}

/// An id-keyed mapping from component id to component instance.
pub struct ComponentRegistry<C> {
    entries: Vec<RegistryEntry<C>>,
}

impl<C> View for ComponentRegistry<C> {
    type V = Seq<RegistryEntryView<C>>;

    closed spec fn view(&self) -> Seq<RegistryEntryView<C>> {
        self.entries@.map_values(|e: RegistryEntry<C>| e@)
    }
}

impl<C> ComponentRegistry<C> {
    /// Every id appears at most once.
    pub open spec fn wf(&self) -> bool {
        registry_ids_unique(self@)
    }

    /// An empty registry.
    pub fn new() -> (r: ComponentRegistry<C>)
        ensures
            r@ == Seq::<RegistryEntryView<C>>::empty(),
            r.wf(),
    {
        let r = ComponentRegistry { entries: Vec::new() };
        proof {
            assert(r@ =~= Seq::<RegistryEntryView<C>>::empty());
        }
        r
    }

    /// How many components are registered.
    pub fn len(&self) -> (r: usize)
        ensures
            r == self@.len(),
    {
        self.entries.len()
    }

    /// The index of the slot stored under `id`, if any.
    fn find_index(&self, id: &String) -> (r: Option<usize>)
        requires
            self.wf(),
        ensures
            match r {
                Some(i) => {
                    &&& registry_has_id(self@, id@)
                    &&& i == registry_index_of(self@, id@)
                    &&& 0 <= i < self@.len()
                    &&& self@[i as int].id == id@
                },
                None => !registry_has_id(self@, id@),
            },
    {
        let n: usize = self.entries.len();
        let mut i: usize = 0;
        while i < n
            invariant
                self.wf(),
                n == self@.len(),
                0 <= i <= n,
                forall|j: int| 0 <= j < i ==> self@[j].id != id@,
            decreases n - i,
        {
            if self.entries[i].id == *id {
                proof {
                    assert(self@[i as int].id == id@);
                    let j = registry_index_of(self@, id@);
                    if j < i as int {
                        assert(self@[j].id != self@[i as int].id);
                    } else if (i as int) < j {
                        assert(self@[i as int].id != self@[j].id);
                    }
                }
                return Some(i);
            }
            i = i + 1;
        }
        None
    }

    /// Whether no component is registered under `id`.
    pub fn id_does_not_exist(&self, id: &String) -> (r: bool)
        requires
            self.wf(),
        ensures
            r == !registry_has_id(self@, id@),
    {
        self.find_index(id).is_none()
    }

    /// Registers `component` under `id`. Registration is idempotent: if
    /// the id already exists the call is a no-op and the incoming
    /// component is dropped.
    pub fn put(&mut self, id: String, component: C)
        requires
            old(self).wf(),
        ensures
            final(self).wf(),
            registry_has_id(old(self)@, id@) ==> final(self)@ == old(self)@,
            !registry_has_id(old(self)@, id@) ==> final(self)@ == old(self)@.push(
                RegistryEntryView { id: id@, component },
            ),
    {
        if self.find_index(&id).is_some() {
            return;
        }
        self.entries.push(RegistryEntry { id, component });
        proof {
            assert(self@ =~= old(self)@.push(
                RegistryEntryView { id: self.entries@.last().id@, component: self.entries@.last().component },
            ));
            assert forall|a: int, b: int|
                0 <= a < b < self@.len() implies self@[a].id != self@[b].id by {
                if b == self@.len() - 1 {
                    assert(!registry_has_id(old(self)@, self@[b].id));
                }
            }
        }
    }

    /// The component registered under `id`, if any.
    pub fn get(&self, id: &String) -> (r: Option<&C>)
        requires
            self.wf(),
        ensures
            match r {
                Some(c) => registry_has_id(self@, id@) && *c == self@[registry_index_of(
                    self@,
                    id@,
                )].component,
                None => !registry_has_id(self@, id@),
            },
    {
        match self.find_index(id) {
            Some(i) => Some(&self.entries[i].component),
            None => None,
        }
    }

    /// The component holding focus: the one registered under the
    /// tracker's current id. Nothing is returned when no id is set or
    /// when the id is stale.
    pub fn get_has_focus(&self, has_focus: &HasFocus) -> (r: Option<&C>)
        requires
            self.wf(),
        ensures
            match r {
                Some(c) => {
                    &&& has_focus@ is Some
                    &&& registry_has_id(self@, has_focus@->0)
                    &&& *c == self@[registry_index_of(self@, has_focus@->0)].component
                },
                None => has_focus@ is None || !registry_has_id(self@, has_focus@->0),
            },
    {
        match has_focus.get_id() {
            Some(id) => self.get(&id),
            None => None,
        }
    }

    /// Checks the focus invariant loudly: a set focus id must name a
    /// registered component. An unset tracker is fine.
    pub fn check_focus(&self, has_focus: &HasFocus) -> (r: Result<(), FocusError>)
        requires
            self.wf(),
        ensures
            r is Ok <==> (has_focus@ is None || registry_has_id(self@, has_focus@->0)),
            r is Err ==> r == Err::<(), FocusError>(FocusError::FocusIdNotRegistered),
    {
        match has_focus.get_id() {
            None => Ok(()),
            Some(id) => {
                if self.find_index(&id).is_some() {
                    Ok(())
                } else {
                    Err(FocusError::FocusIdNotRegistered)
                }
            },
        }
    }
}

impl<C> ComponentRegistry<C> {
    /// Routes one input event.
    ///
    /// The event is first offered to the focus-switch handler: a consumed
    /// focus switch always yields `ConsumedRerender` — never `Consumed`
    /// or `Propagate` — touches no component and dispatches nothing.
    /// Otherwise the event goes to the component named by the focus
    /// tracker and that component's own outcome, next state and actions
    /// become the routing result. With no focus id set, or a focus id
    /// that names no registered component, the event propagates
    /// un-consumed and nothing changes.
    pub fn route_event<S, A>(
        &mut self,
        has_focus: &mut HasFocus,
        event: &InputEvent,
        state: &S,
        left_id: &String,
        right_id: &String,
    ) -> (r: (EventPropagation, Vec<A>)) where C: Component<S, A>
        requires
            old(self).wf(),
        ensures
            final(self).wf(),
            spec_is_focus_switch_event(*event) ==> {
                &&& r.0 == EventPropagation::ConsumedRerender
                &&& r.1@ == Seq::<A>::empty()
                &&& final(self)@ == old(self)@
                &&& old(has_focus)@ is Some ==> final(has_focus)@ == Some(
                    spec_switch_target(*event, left_id@, right_id@),
                )
                &&& old(has_focus)@ is None ==> final(has_focus)@ == old(has_focus)@
            },
            !spec_is_focus_switch_event(*event) ==> {
                &&& final(has_focus)@ == old(has_focus)@
                &&& (old(has_focus)@ is None || !registry_has_id(old(self)@, old(has_focus)@->0))
                    ==> {
                    &&& r.0 == EventPropagation::Propagate
                    &&& r.1@ == Seq::<A>::empty()
                    &&& final(self)@ == old(self)@
                }
                &&& (old(has_focus)@ is Some && registry_has_id(old(self)@, old(has_focus)@->0))
                    ==> {
                    let i = registry_index_of(old(self)@, old(has_focus)@->0);
                    let c = old(self)@[i].component;
                    &&& r.0 == c.event_outcome(*event, *state)
                    &&& r.1@ == c.event_actions(*event, *state)
                    &&& final(self)@ == old(self)@.update(
                        i,
                        RegistryEntryView {
                            id: old(self)@[i].id,
                            component: c.event_next(*event, *state),
                        },
                    )
                }
            },
    {
        if handle_left_right_input_to_switch_focus(has_focus, event, left_id, right_id) {
            return (EventPropagation::ConsumedRerender, Vec::new());
        }
        let focused: String = match has_focus.get_id() {
            Some(id) => id,
            None => {
                return (EventPropagation::Propagate, Vec::new());
            },
        };
        match self.find_index(&focused) {
            Some(i) => {
                let r = self.entries[i].component.handle_event(event, state);
                proof {
                    assert(self@ =~= old(self)@.update(
                        i as int,
                        RegistryEntryView {
                            id: old(self)@[i as int].id,
                            component: self@[i as int].component,
                        },
                    ));
                }
                r
            },
            None => (EventPropagation::Propagate, Vec::new()),
        }
    }
}

/// The surface and registry a successful [`make_box`] leaves behind: the
/// box is opened and closed again around the fragment of the component
/// registered under the box's id (if any), rendered into the resolved
/// rectangle.
pub open spec fn spec_make_box<S, A, C: Component<S, A>>(
    sv: SurfaceView,
    reg: Seq<RegistryEntryView<C>>,
    focus: Option<Seq<char>>,
    state: S,
    id: Seq<char>,
    dir: crate::dimens::Direction,
    req: crate::dimens::RequestedSizePercent,
    style_ids: Seq<Seq<char>>,
) -> (SurfaceView, Seq<RegistryEntryView<C>>) {
    let mid = spec_box_start(sv, id, dir, req, style_ids);
    let bounds = mid.frames.last().bounds;
    if registry_has_id(reg, id) {
        let i = registry_index_of(reg, id);
        let c = reg[i].component;
        (
            SurfaceView {
                queue: sv.queue + c.render_cmds(focus, bounds, state),
                ..spec_box_end(mid)
            },
            reg.update(
                i,
                RegistryEntryView { id: reg[i].id, component: c.render_next(focus, bounds, state) },
            ),
        )
    } else {
        (spec_box_end(mid), reg)
    }
}

/// Opens a box, renders the component registered under the box's id into
/// the resolved rectangle (if one is registered), and closes the box
/// again: the builder step behind each leaf of a declared box tree.
///
/// On success the stack of open rectangles is exactly as before the call
/// and the queue has grown by the component's fragment; a failing
/// `box_start` leaves surface and registry untouched and returns its
/// error.
pub fn make_box<S, A, C: Component<S, A>>(
    surface: &mut Surface,
    props: BoxProps,
    registry: &mut ComponentRegistry<C>,
    has_focus: &HasFocus,
    state: &S,
) -> (r: Result<(), LayoutError>)
    requires
        surface_wf(old(surface)@),
        old(registry).wf(),
    ensures
        surface_wf(final(surface)@),
        final(registry).wf(),
        r is Ok <==> box_start_ok(old(surface)@, props.req_size, props.style_ids.deep_view()),
        r is Err ==> {
            &&& final(surface)@ == old(surface)@
            &&& final(registry)@ == old(registry)@
            &&& r == Err::<(), LayoutError>(spec_box_start_err(
                old(surface)@,
                props.req_size,
                props.style_ids.deep_view(),
            ))
        },
        r is Ok ==> {
            let (sv2, reg2) = spec_make_box(
                old(surface)@,
                old(registry)@,
                has_focus@,
                *state,
                props.id@,
                props.dir,
                props.req_size,
                props.style_ids.deep_view(),
            );
            &&& final(surface)@ == sv2
            &&& final(registry)@ == reg2
            &&& final(surface)@.frames == old(surface)@.frames
        },
{
    let ghost gdir = props.dir;
    let ghost greq = props.req_size;
    let ghost gids: Seq<Seq<char>> = props.style_ids.deep_view();
    let box_id: String = props.id.clone();
    match surface.box_start(props) {
        Ok(()) => {},
        Err(e) => {
            return Err(e);
        },
    }
    match registry.find_index(&box_id) {
        Some(i) => {
            let bounds: Rect = surface.current_box();
            let mut fragment: RenderQueue = registry.entries[i].component.render(
                has_focus,
                bounds,
                state,
            );
            surface.append_queue(&mut fragment);
            proof {
                assert(registry@ =~= old(registry)@.update(
                    i as int,
                    RegistryEntryView {
                        id: old(registry)@[i as int].id,
                        component: registry@[i as int].component,
                    },
                ));
            }
        },
        None => {},
    }
    let ended = surface.box_end();
    proof {
        assert(ended is Ok);
    }
    match ended {
        Ok(()) => {},
        Err(_) => {},
    }
    proof {
        let mid = spec_box_start(old(surface)@, box_id@, gdir, greq, gids);
        assert(spec_box_end(mid).frames =~= old(surface)@.frames);
        if registry_has_id(old(registry)@, box_id@) {
            assert(surface@ =~= SurfaceView {
                queue: old(surface)@.queue + old(registry)@[registry_index_of(
                    old(registry)@,
                    box_id@,
                )].component.render_cmds(has_focus@, mid.frames.last().bounds, *state),
                ..spec_box_end(mid)
            });
        } else {
            assert(surface@ =~= spec_box_end(mid));
        }
    }
    Ok(())
}

} // verus!
