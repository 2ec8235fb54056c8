//! Core of a desktop shell: the per-process server credentials (a free port
//! and a random bearer token), the shared configuration that hands them to
//! the front end, the menu dispatcher and the splash/main launch handshake.

pub mod launch;
pub mod menu;
pub mod state;
pub mod token;

pub use launch::{close_splashscreen, LaunchError, LaunchSteps, Surface, Surfaces};
pub use menu::{handle_event, menu_channel, MenuAction, MenuEffect, MenuSignal};
pub use state::{
    get_server_config, init_state, state_from, valid_config, AppState, ConfigModel, ServerConfig,
    StartupError,
};
pub use token::{generate_token, is_token_char, is_valid_token, valid_token, TOKEN_LEN};
