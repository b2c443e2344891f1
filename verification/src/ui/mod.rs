//! The screens of the browser, as state that key presses and fetched data
//! change, and the relative time shown next to list entries.
pub mod display;
pub mod list;
pub mod time;
pub mod item_detail;
pub mod repo_list;
pub mod source_picker;
pub mod account_picker;
pub mod notif_list;
pub mod search;
pub mod lists_view;
pub mod repo_detail;
