//! Verified core logic of the WinIsland window layer: settings pages and their
//! navigation, the markdown block parser used by plugin detail panels, plugin
//! marketplace decisions, resource editor controls and small pixel and text
//! helpers.

pub mod caches;
pub mod display;
pub mod flags;
pub mod frame_pacing;
pub mod island_input;
pub mod markdown;
pub mod media;
pub mod markdown_events;
pub mod number_input;
pub mod page_history;
pub mod pixel;
pub mod plugin_sync;
pub mod plugins;
pub mod resource_editor;
pub mod settings_page;
pub mod surface_format;
pub mod text;
