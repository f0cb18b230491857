//! Control plane for driving a desktop application from an automation client:
//! command routing, request/reply correlation and the screenshot pipeline.

pub mod ask;
pub mod bridge;
pub mod config;
pub mod connection;
pub mod dispatch;
pub mod encoding;
pub mod error;
pub mod json;
pub mod payload;
pub mod placeholder;
pub mod processor;
pub mod response;
pub mod screenshot;
pub mod script;
pub mod server;
pub mod shared;
pub mod text;
pub mod webview;
pub mod window_match;

pub use config::PluginConfig;
pub use error::McpError;
pub use response::SocketResponse;
pub use screenshot::{ScreenshotParams, ScreenshotResult};
pub use shared::{McpInterface, WindowManagerParams, WindowManagerResult};
