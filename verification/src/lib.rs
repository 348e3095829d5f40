//! A terminal-screen composition engine.
//!
//! The engine turns a declarative tree of nested, percentage-sized boxes and
//! a style sheet into an ordered queue of primitive terminal draw commands,
//! routes keyboard input to the single focused component, and lets components
//! mutate shared application state through a reducer-style store.
//!
//! The crate is organised bottom-up:
//! - [`dimens`]: sizes, positions, rectangles and percentage requests;
//! - [`layout_error`]: the error taxonomy of the layout layer;
//! - [`style`] and [`stylesheet`]: named style records and their flat lookup;
//! - [`render_queue`]: the append-only queue of draw commands;
//! - [`surface`]: the stack-based box layout engine;
//! - [`events`] and [`focus`]: typed input events and the focus tracker;
//! - [`component`]: the component registry and event routing;
//! - [`store`]: the reducer-style state store;
//! - [`utils`]: ready-made content fragments such as the hint bar;
//! - [`sample_app`]: a small demo wiring of all the layers.

pub mod component;
pub mod dimens;
pub mod events;
pub mod focus;
pub mod layout_error;
pub mod render_queue;
pub mod sample_app;
pub mod store;
pub mod style;
pub mod stylesheet;
pub mod surface;
pub mod utils;

pub use component::Component;
pub use component::ComponentRegistry;
pub use component::FocusError;
pub use dimens::Direction;
pub use dimens::Position;
pub use dimens::Rect;
pub use dimens::RequestedSizePercent;
pub use dimens::Size;
pub use events::EventPropagation;
pub use events::InputEvent;
pub use focus::HasFocus;
pub use layout_error::LayoutError;
pub use render_queue::RenderCommand;
pub use render_queue::RenderQueue;
pub use store::Reducer;
pub use store::Store;
pub use store::StoreError;
pub use style::Style;
pub use stylesheet::Stylesheet;
pub use surface::BoxProps;
pub use surface::Surface;
