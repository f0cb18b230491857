//! How the plugin is set up.

use std::path::PathBuf;
use vstd::prelude::*;

verus! {

/// A path of the file system, as the standard library holds it.
#[verifier::external_type_specification]
#[verifier::external_body]
pub struct ExPathBuf(PathBuf);

/// The name of the socket file in the temporary directory, used where the
/// configuration names no path.
pub const DEFAULT_SOCKET_FILE: &'static str = "tauri-mcp.sock";

/// The name under which the plugin registers with the host.
pub const PLUGIN_NAME: &'static str = "tauri-mcp";

/// Plugin configuration options.
pub struct PluginConfig {
    /// The name of the application that screenshots look for.
    pub application_name: String,
    /// Path to the socket file. If `None`, the default file in the temporary
    /// directory is used.
    pub socket_path: Option<PathBuf>,
    /// Whether to start the socket server automatically.
    pub start_socket_server: bool,
}

/// Where the socket file is to be.
pub enum SocketLocation {
    /// At this path.
    Custom(PathBuf),
    /// In the temporary directory, under [`DEFAULT_SOCKET_FILE`].
    Default,
}

impl PluginConfig {
    /// Create a new plugin configuration with default values: no socket path,
    /// and the socket server started automatically.
    pub fn new(application_name: String) -> (r: Self)
        ensures
            r.application_name == application_name,
            r.socket_path is None,
            r.start_socket_server,
    {
        Self { application_name, socket_path: None, start_socket_server: true }
    }

    /// Set the socket path.
    pub fn socket_path(self, path: PathBuf) -> (r: Self)
        ensures
            r.socket_path == Some(path),
            r.application_name == self.application_name,
            r.start_socket_server == self.start_socket_server,
    {
        let mut config = self;
        config.socket_path = Some(path);
        config
    }

    /// Set whether to start the socket server automatically.
    pub fn start_socket_server(self, start: bool) -> (r: Self)
        ensures
            r.start_socket_server == start,
            r.application_name == self.application_name,
            r.socket_path == self.socket_path,
    {
        let mut config = self;
        config.start_socket_server = start;
        config
    }

    /// Where the socket file is to be: at the configured path, or at the
    /// default place where none is configured.
    pub fn socket_location(self) -> (r: SocketLocation)
        ensures
            r == match self.socket_path {
                Some(path) => SocketLocation::Custom(path),
                None => SocketLocation::Default,
            },
    {
        match self.socket_path {
            Some(path) => SocketLocation::Custom(path),
            None => SocketLocation::Default,
        }
    }
}

impl Default for PluginConfig {
    /// The configuration with nothing set: an empty application name, no
    /// socket path, and no automatic start of the socket server.
    fn default() -> (r: Self)
        ensures
            r.application_name@ == Seq::<char>::empty(),
            r.socket_path is None,
            !r.start_socket_server,
    {
        Self { application_name: String::new(), socket_path: None, start_socket_server: false }
    }
}

} // verus!
