//! The server credentials of this process and the state that shares them.
use vstd::prelude::*;

use crate::token::{generate_token, is_valid_token, valid_token};

verus! {

/// Port and token that the front end needs to reach the local server.
#[derive(Clone, Debug)]
pub struct ServerConfig {
    pub port: u16,
    pub token: String,
}

/// Mathematical value of a `ServerConfig`.
pub ghost struct ConfigModel {
    pub port: u16,
    pub token: Seq<char>,
}

impl View for ServerConfig {
    type V = ConfigModel;

    open spec fn view(&self) -> ConfigModel {
        ConfigModel { port: self.port, token: self.token@ }
    }
}

/// A usable configuration: a port assigned by the OS (never 0) and a
/// well-formed token.
pub open spec fn valid_config(c: ConfigModel) -> bool {
    c.port != 0 && valid_token(c.token)
}

impl ServerConfig {
    /// A copy of this configuration, field for field.
    pub fn copy(&self) -> (r: ServerConfig)
        ensures
            r@ == self@,
    {
        ServerConfig { port: self.port, token: self.token.clone() }
    }
}

/// The process-wide state: one configuration, built once at startup and
/// never changed afterwards. No method takes `&mut self`, so every reader,
/// on any thread, sees the value it was built with.
pub struct AppState {
    config: ServerConfig,
}

impl View for AppState {
    type V = ConfigModel;

    closed spec fn view(&self) -> ConfigModel {
        self.config@
    }
}

impl AppState {
    /// Takes ownership of a valid configuration.
    pub fn new(config: ServerConfig) -> (r: AppState)
        requires
            valid_config(config@),
        ensures
            r@ == config@,
            r.wf(),
    {
        AppState { config }
    }

    /// The state holds a valid configuration.
    pub closed spec fn wf(&self) -> bool {
        valid_config(self.config@)
    }

    /// A copy of the held configuration: always the one passed to `new`.
    pub fn get(&self) -> (r: ServerConfig)
        ensures
            r@ == self@,
            self.wf() ==> valid_config(r@),
    {
        self.config.copy()
    }
}

/// The query that the front end makes to learn the port and the token.
pub fn get_server_config(state: &AppState) -> (r: ServerConfig)
    ensures
        r@ == state@,
        state.wf() ==> valid_config(r@),
{
    state.get()
}

/// A state built by `new(config)` hands `config` to every reader: reads
/// made through `get` or `get_server_config`, on any thread and in any
/// order, all return that value.
pub proof fn lemma_reads_agree(
    config: ServerConfig,
    state: AppState,
    first: ServerConfig,
    second: ServerConfig,
)
    requires
        state@ == config@,
        first@ == state@,
        second@ == state@,
    ensures
        first@ == config@,
        second@ == config@,
        first@ == second@,
{
}

/// Why the startup state could not be built.
#[derive(Clone, Copy, Debug, PartialEq, Eq, Structural)]
pub enum StartupError {
    /// The OS handed back port 0, so no port was actually reserved.
    PortUnassigned,
    /// The token is not `TOKEN_LEN` alphanumeric characters.
    MalformedToken,
}

/// Builds the process state from the port that the OS assigned and a token.
pub fn state_from(port: u16, token: String) -> (r: Result<AppState, StartupError>)
    ensures
        port == 0 ==> r == Err::<AppState, StartupError>(StartupError::PortUnassigned),
        port != 0 && !valid_token(token@) ==> r == Err::<AppState, StartupError>(
            StartupError::MalformedToken,
        ),
        port != 0 && valid_token(token@) ==> (r matches Ok(s) && s@ == (ConfigModel {
            port,
            token: token@,
        }) && valid_config(s@) && s.wf()),
{
    if port == 0 {
        return Err(StartupError::PortUnassigned);
    }
    if !is_valid_token(token.as_str()) {
        return Err(StartupError::MalformedToken);
    }
    Ok(AppState::new(ServerConfig { port, token }))
}

/// Startup: mints a fresh token and builds the process state around the
/// port that the OS assigned. Succeeds exactly when that port is not 0.
pub fn init_state(port: u16) -> (r: Result<AppState, StartupError>)
    ensures
        port == 0 <==> r == Err::<AppState, StartupError>(StartupError::PortUnassigned),
        r is Ok <==> port != 0,
        r matches Ok(s) ==> s@.port == port && valid_config(s@) && s.wf(),
{
    let token = generate_token();
    state_from(port, token)
}

} // verus!
