//! Two-level keyboard navigation for a terminal dashboard.
//!
//! A dashboard is an ordered list of sections, each with a table of rows.
//! The outer cursor picks a section, the inner cursor of the focused section
//! picks a row, and both wrap around at either end. This crate holds the
//! state, its transitions, the key table, the event loop over recorded
//! events and the layout of a frame, each with its contract; drawing cells
//! and reading the terminal belong to the program around it.
//!
//! - [`cursor`]: a wrapping selection cursor and its laws.
//! - [`rows`], [`section`], [`store`]: row records, sections and the store
//!   that owns them.
//! - [`keys`]: input events and the key table.
//! - [`app`]: the dashboard and the navigation controller.
//! - [`layout`], [`render`]: regions, the partition of an area, and the
//!   frame of a dashboard.
//! - [`event_loop`]: the loop of drawing and handling events.

pub mod app;
pub mod cursor;
pub mod event_loop;
pub mod keys;
pub mod layout;
pub mod render;
pub mod rows;
pub mod section;
pub mod store;

pub use crate::app::{App, AppView, LoopState, NavigationState};
pub use crate::cursor::Move;
pub use crate::event_loop::{run_app, Run};
pub use crate::keys::{Action, InputEvent, Key, KeyKind};
pub use crate::layout::Region;
pub use crate::render::{render_selected, ui, Frame, Panel, Selected};
pub use crate::rows::{create_table, RowRecord};
pub use crate::section::{Emphasis, SectionView, UiSection};
pub use crate::store::{SectionStore, StoreError};
