use tui_core::component::ComponentRegistry;
use tui_core::component::FocusError;
use tui_core::events::EventPropagation;
use tui_core::events::InputEvent;
use tui_core::events::Keypress;
use tui_core::events::ModifierKeys;
use tui_core::events::SpecialKey;
use tui_core::focus::HasFocus;
use tui_core::focus::handle_left_right_input_to_switch_focus;
use tui_core::sample_app::AppAction;
use tui_core::sample_app::AppState;
use tui_core::sample_app::ColumnRenderComponent;

fn left_key() -> InputEvent {
    InputEvent::NonDisplayableKeypress(Keypress {
        maybe_modifier_keys: None,
        key: SpecialKey::Left,
    })
}

fn right_key() -> InputEvent {
    InputEvent::NonDisplayableKeypress(Keypress {
        maybe_modifier_keys: None,
        key: SpecialKey::Right,
    })
}

fn column(label: &str) -> ColumnRenderComponent {
    ColumnRenderComponent { label: label.to_owned() }
}

fn ids() -> (String, String) {
    ("col_1".to_string(), "col_2".to_string())
}

#[test]
fn focus_tracker_is_a_single_mutable_slot() {
    let mut focus = HasFocus::new();
    assert!(focus.get_id().is_none());
    focus.set_id("a".to_string());
    assert_eq!(focus.get_id(), Some("a".to_string()));
    focus.set_id("b".to_string());
    assert_eq!(focus.get_id(), Some("b".to_string()));
}

#[test]
fn switch_handler_consumes_only_plain_left_and_right() {
    let (l, r) = ids();
    let mut focus = HasFocus::new();
    focus.set_id(l.clone());
    assert!(handle_left_right_input_to_switch_focus(&mut focus, &right_key(), &l, &r));
    assert_eq!(focus.get_id(), Some("col_2".to_string()));
    assert!(handle_left_right_input_to_switch_focus(&mut focus, &left_key(), &l, &r));
    assert_eq!(focus.get_id(), Some("col_1".to_string()));
    // A displayable key or a modified arrow is not a focus switch.
    assert!(!handle_left_right_input_to_switch_focus(
        &mut focus,
        &InputEvent::DisplayableKeypress('x'),
        &l,
        &r
    ));
    let shifted_right = InputEvent::NonDisplayableKeypress(Keypress {
        maybe_modifier_keys: Some(ModifierKeys { shift: true, ctrl: false, alt: false }),
        key: SpecialKey::Right,
    });
    assert!(!handle_left_right_input_to_switch_focus(&mut focus, &shifted_right, &l, &r));
    assert_eq!(focus.get_id(), Some("col_1".to_string()));
}

#[test]
fn switch_without_focus_consumes_but_moves_nothing() {
    let (l, r) = ids();
    let mut focus = HasFocus::new();
    assert!(handle_left_right_input_to_switch_focus(&mut focus, &left_key(), &l, &r));
    assert!(focus.get_id().is_none());
}

#[test]
fn consumed_focus_switch_always_demands_a_rerender() {
    // The focus-switch handler never answers Consumed or Propagate.
    let (l, r) = ids();
    let mut registry: ComponentRegistry<ColumnRenderComponent> = ComponentRegistry::new();
    registry.put(l.clone(), column("col 1"));
    registry.put(r.clone(), column("col 2"));
    let mut focus = HasFocus::new();
    focus.set_id(l.clone());
    let state = AppState { count: 0 };
    let (outcome, actions): (EventPropagation, Vec<AppAction>) =
        registry.route_event(&mut focus, &right_key(), &state, &l, &r);
    assert_eq!(outcome, EventPropagation::ConsumedRerender);
    assert!(actions.is_empty());
    assert_eq!(focus.get_id(), Some("col_2".to_string()));
}

#[test]
fn stale_focus_id_propagates_without_panicking() {
    // Focus points at an id with no registered handle: routing a
    // non-switch event returns Propagate.
    let (l, r) = ids();
    let mut registry: ComponentRegistry<ColumnRenderComponent> = ComponentRegistry::new();
    let mut focus = HasFocus::new();
    focus.set_id("ghost".to_string());
    let state = AppState { count: 0 };
    let (outcome, actions): (EventPropagation, Vec<AppAction>) =
        registry.route_event(&mut focus, &InputEvent::DisplayableKeypress('+'), &state, &l, &r);
    assert_eq!(outcome, EventPropagation::Propagate);
    assert!(actions.is_empty());
}

#[test]
fn unfocused_event_propagates() {
    let (l, r) = ids();
    let mut registry: ComponentRegistry<ColumnRenderComponent> = ComponentRegistry::new();
    registry.put(l.clone(), column("col 1"));
    let mut focus = HasFocus::new();
    let state = AppState { count: 0 };
    let (outcome, _actions): (EventPropagation, Vec<AppAction>) =
        registry.route_event(&mut focus, &InputEvent::DisplayableKeypress('+'), &state, &l, &r);
    assert_eq!(outcome, EventPropagation::Propagate);
    assert!(focus.get_id().is_none());
}

#[test]
fn focused_component_result_becomes_the_routing_result() {
    let (l, r) = ids();
    let mut registry: ComponentRegistry<ColumnRenderComponent> = ComponentRegistry::new();
    registry.put(l.clone(), column("col 1"));
    let mut focus = HasFocus::new();
    focus.set_id(l.clone());
    let state = AppState { count: 0 };
    let (outcome, actions): (EventPropagation, Vec<AppAction>) =
        registry.route_event(&mut focus, &InputEvent::DisplayableKeypress('+'), &state, &l, &r);
    assert_eq!(outcome, EventPropagation::Consumed);
    assert_eq!(actions, vec![AppAction::AddPop(1)]);
    let (outcome, actions): (EventPropagation, Vec<AppAction>) =
        registry.route_event(&mut focus, &InputEvent::DisplayableKeypress('z'), &state, &l, &r);
    assert_eq!(outcome, EventPropagation::Propagate);
    assert!(actions.is_empty());
}

#[test]
fn registration_is_idempotent() {
    let mut registry: ComponentRegistry<ColumnRenderComponent> = ComponentRegistry::new();
    registry.put("a".to_string(), column("first"));
    registry.put("a".to_string(), column("second"));
    assert_eq!(registry.len(), 1);
    let c = registry.get(&"a".to_string()).unwrap();
    assert_eq!(c.label, "first");
}

#[test]
fn check_focus_fails_loudly_on_a_dangling_id() {
    let mut registry: ComponentRegistry<ColumnRenderComponent> = ComponentRegistry::new();
    registry.put("a".to_string(), column("first"));
    let mut focus = HasFocus::new();
    // No focus set: nothing to violate.
    assert!(registry.check_focus(&focus).is_ok());
    focus.set_id("a".to_string());
    assert!(registry.check_focus(&focus).is_ok());
    focus.set_id("dangling".to_string());
    assert_eq!(registry.check_focus(&focus), Err(FocusError::FocusIdNotRegistered));
}

#[test]
fn get_has_focus_returns_nothing_for_unset_or_stale_ids() {
    let mut registry: ComponentRegistry<ColumnRenderComponent> = ComponentRegistry::new();
    registry.put("a".to_string(), column("first"));
    let mut focus = HasFocus::new();
    assert!(registry.get_has_focus(&focus).is_none());
    focus.set_id("missing".to_string());
    assert!(registry.get_has_focus(&focus).is_none());
    focus.set_id("a".to_string());
    assert_eq!(registry.get_has_focus(&focus).unwrap().label, "first");
}
