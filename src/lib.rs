pub mod dispatch;
pub mod events;
pub mod laws;
pub mod model;
pub mod strategy;

pub use dispatch::{dispatch_slot, render_window};
pub use events::{route_click, ChangeEvent, ClickTarget, SinkEvent};
pub use model::{FetchOutcome, Slot, VisibleWindow};
pub use strategy::{error_slot, loading_slot, placeholder_slot, row_slot};
