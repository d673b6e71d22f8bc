//! Core queue, menu and matchmaking logic of the qBot PUG manager, with
//! machine-checked contracts.

pub mod text;
pub mod steam;
pub mod session;
pub mod teams;
pub mod alerts;
pub mod parse;
pub mod buttons;
pub mod rank;
pub mod queue;
pub mod config;
pub mod voice;
pub mod elo;
pub mod log;
pub mod unified_menu;
pub mod user_prefs;
pub mod menu_system;
pub mod server_config;
pub mod category;
pub mod ids;
pub mod settings;
pub mod settings_pages;
pub mod dashboard;
pub mod dash_actions;
pub mod dash_press;
pub mod link;
pub mod keyed;
pub mod manager;
pub mod dm_tracker;
pub mod expiry;
pub mod batch;
pub mod immunity;
pub mod server_buttons;
pub mod elo_gate;
pub mod forms;
pub mod player_forms;
pub mod prefs;
pub mod dashboard_view;
pub mod records;
pub mod game;
pub mod category_settings;
pub mod category_buttons;
pub mod setup;
pub mod nav_pages;
pub mod guilds;
pub mod format_forms;
pub mod rank_change;
pub mod ping;
pub mod alert_embed;
pub mod help;
pub mod player_menu;
pub mod group_pages;
pub mod rank_pages;
pub mod pref_pages;
pub mod alert_forms;
pub mod link_options;
