use tui_core::component::ComponentRegistry;
use tui_core::dimens::Position;
use tui_core::dimens::Size;
use tui_core::events::EventPropagation;
use tui_core::events::InputEvent;
use tui_core::focus::HasFocus;
use tui_core::layout_error::LayoutError;
use tui_core::render_queue::RenderCommand;
use tui_core::sample_app::AppAction;
use tui_core::sample_app::AppState;
use tui_core::sample_app::ColumnRenderComponent;
use tui_core::sample_app::app_render;
use tui_core::sample_app::create_components_populate_registry_init_focus;
use tui_core::sample_app::create_store;
use tui_core::sample_app::create_stylesheet;
use tui_core::style::Color;

fn pos(col: u16, row: u16) -> Position {
    Position { col, row }
}

#[test]
fn demo_stylesheet_holds_the_two_column_styles() {
    let sheet = create_stylesheet().unwrap();
    assert_eq!(sheet.len(), 2);
    let s1 = sheet.find_style(&"style1".to_string()).unwrap();
    assert_eq!(s1.margin, Some(1));
    assert_eq!(s1.color_bg, Some(Color::Rgb { r: 55, g: 55, b: 100 }));
    let s2 = sheet.find_style(&"style2".to_string()).unwrap();
    assert_eq!(s2.color_bg, Some(Color::Rgb { r: 55, g: 55, b: 248 }));
    assert!(sheet.find_style(&"style3".to_string()).is_none());
}

#[test]
fn registry_population_is_idempotent_and_inits_focus_once() {
    let mut registry: ComponentRegistry<ColumnRenderComponent> = ComponentRegistry::new();
    let mut focus = HasFocus::new();
    create_components_populate_registry_init_focus(&mut registry, &mut focus);
    assert_eq!(registry.len(), 2);
    assert_eq!(focus.get_id(), Some("col_1".to_string()));
    focus.set_id("col_2".to_string());
    create_components_populate_registry_init_focus(&mut registry, &mut focus);
    assert_eq!(registry.len(), 2);
    // An already-set focus is left alone.
    assert_eq!(focus.get_id(), Some("col_2".to_string()));
}

#[test]
fn demo_frame_renders_both_columns_and_the_hint_bar() {
    let mut registry: ComponentRegistry<ColumnRenderComponent> = ComponentRegistry::new();
    let mut focus = HasFocus::new();
    create_components_populate_registry_init_focus(&mut registry, &mut focus);
    let state = AppState { count: 0 };
    let q = app_render(&mut registry, &focus, &state, Size { cols: 100, rows: 10 }).unwrap();
    // Two commands per column, then the seven-command hint bar.
    assert_eq!(q.len(), 11);
    // Left column: outer rectangle (0,0) 50x9, shrunk by a one-cell
    // margin.
    assert_eq!(*q.get(0), RenderCommand::MoveCursorAbs(pos(1, 1)));
    assert_eq!(*q.get(1), RenderCommand::PrintStyledText("col 1".to_string(), None));
    // Right column: outer rectangle (50,0) 50x9, shrunk by a one-cell
    // margin.
    assert_eq!(*q.get(2), RenderCommand::MoveCursorAbs(pos(51, 1)));
    assert_eq!(*q.get(3), RenderCommand::PrintStyledText("col 2".to_string(), None));
    // The hint bar starts at the centered bottom position of the full
    // window.
    assert_eq!(*q.get(4), RenderCommand::MoveCursorAbs(pos(24, 9)));
    match q.get(5) {
        RenderCommand::PrintStyledText(text, attrs) => {
            assert_eq!(text, "Hints:");
            assert!(attrs.as_ref().unwrap().dim);
        },
        other => panic!("unexpected command {:?}", other),
    }
}

#[test]
fn demo_frame_needs_room_above_the_hint_bar() {
    let mut registry: ComponentRegistry<ColumnRenderComponent> = ComponentRegistry::new();
    let mut focus = HasFocus::new();
    create_components_populate_registry_init_focus(&mut registry, &mut focus);
    let state = AppState { count: 0 };
    let r = app_render(&mut registry, &focus, &state, Size { cols: 100, rows: 1 });
    assert!(matches!(r, Err(LayoutError::InvalidRootSize)));
    let r = app_render(&mut registry, &focus, &state, Size { cols: 0, rows: 10 });
    assert!(matches!(r, Err(LayoutError::InvalidRootSize)));
}

#[test]
fn typed_plus_flows_from_routing_into_the_store() {
    let mut registry: ComponentRegistry<ColumnRenderComponent> = ComponentRegistry::new();
    let mut focus = HasFocus::new();
    create_components_populate_registry_init_focus(&mut registry, &mut focus);
    let mut store = create_store();
    let left = "col_1".to_string();
    let right = "col_2".to_string();
    let (outcome, actions): (EventPropagation, Vec<AppAction>) = registry.route_event(
        &mut focus,
        &InputEvent::DisplayableKeypress('+'),
        store.get_state(),
        &left,
        &right,
    );
    assert_eq!(outcome, EventPropagation::Consumed);
    for a in &actions {
        store.dispatch(a).unwrap();
    }
    assert_eq!(store.get_state().count, 1);
}
