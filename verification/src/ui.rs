//! The settings window's view of the loaded metadata: tabs, settings, the
//! detail of one row, and the optional screen shader advisory action.
use vstd::prelude::*;

pub mod advisory;
pub mod model;
pub mod window_text;
pub mod color_control;
pub mod connected_files;
pub mod review_labels;
pub mod detail_text;
pub mod structured_text;
pub mod pending_save;
pub mod color_picker;

verus! {

/// The application id under which the settings window registers.
pub const APP_ID: &'static str = "io.github.kyarorukyo.hyprlandsettings";

} // verus!
