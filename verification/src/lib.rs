//! Decision core of an OpenVTC terminal client.

use vstd::prelude::*;

pub mod account;
pub mod actions;
pub mod background_dispatch;
pub mod clipboard;
pub mod clock;
pub mod codec;
pub mod communities;
pub mod config;
pub mod content;
pub mod create_persona;
pub mod credential_actions;
pub mod did_manager;
pub mod didcomm;
pub mod dispatch_util;
pub mod display;
pub mod events;
pub mod git_sign;
pub mod inbox_actions;
pub mod join;
pub mod join_flow;
pub mod json;
pub mod keyed;
pub mod launch;
pub mod ledger;
pub mod main_page;
pub mod menu;
pub mod message_dispatch;
pub mod nav;
pub mod redact;
pub mod relationship_actions;
pub mod runtime;
pub mod save_coalesce;
pub mod session_manager;
pub mod settings_actions;
pub mod setup;
pub mod setup_config;
pub mod setup_did_git_sign;
pub mod setup_wizard;
pub mod sort;
pub mod state;
pub mod sync;
pub mod text;
pub mod vic;
pub mod vrc;
pub mod vta;
