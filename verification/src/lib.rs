//! Cocoa-Way: the decisions and data of a Wayland compositor that runs
//! container applications on macOS.
use vstd::prelude::*;

pub mod action_laws;
pub mod actions;
pub mod activity;
pub mod application_model;
pub mod argument_laws;
pub mod call_laws;
pub mod check_laws;
pub mod choice_laws;
pub mod clipboard;
pub mod clipboard_laws;
pub mod container_mode;
pub mod container_sessions;
pub mod ctl;
pub mod detail_pages;
pub mod diagnostics;
pub mod dialogs;
pub mod display_pages;
pub mod form_laws;
pub mod gesture_laws;
pub mod guest_programs;
pub mod handlers;
pub mod input;
pub mod inventory;
pub mod inventory_laws;
pub mod json;
pub mod launch_laws;
pub mod list_laws;
pub mod measurement_laws;
pub mod message_laws;
pub mod mode_laws;
pub mod names;
pub mod overview_laws;
pub mod page;
pub mod page_laws;
pub mod pages;
pub mod presentation;
pub mod profile_laws;
pub mod profiles;
pub mod record_laws;
pub mod records;
pub mod relay;
pub mod relay_launch;
pub mod relay_run;
pub mod render;
pub mod resource_pages;
pub mod runtime_laws;
pub mod runtime_pages;
pub mod runtime_paths;
pub mod runtimes;
pub mod scene;
pub mod scene_laws;
pub mod session_config;
pub mod session_files;
pub mod session_launch;
pub mod session_lists;
pub mod session_pages;
pub mod session_reading;
pub mod splitting;
pub mod storage;
pub mod storage_laws;
pub mod tasks;
pub mod text;
pub mod text_laws;
pub mod volume_laws;
pub mod window;
pub mod window_laws;

verus! {

} // verus!
