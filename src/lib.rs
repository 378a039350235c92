//! A combined text-entry and dropdown-selection control: the decisions it makes
//! on sizing, input events, overlay lifecycle and paint, over plain values.
pub mod event;
pub mod layout;
pub mod state;
pub mod view;

pub use event::{update, Choices, Effect, Event, Reply, ScrollDirection, Status};
pub use layout::{content_width, layout, IntrinsicSize, Length, Padding};
pub use state::State;
pub use view::{draw, mouse_interaction, overlay, Appearance, Content, Interaction, Look};
