//! An interactive, process-backed session abstraction: a verified state
//! machine for spawning a child process and pumping bytes to and from it,
//! together with two narrow collaborators (a text-completion client and a
//! sandboxed extension loader).

mod client;
mod plugin;
mod registry;
mod session;
mod status;
mod supervisor;

pub use client::CompletionRequest;
pub use client::CompletionResponse;
pub use client::LlmClient;
pub use plugin::PluginError;
pub use plugin::WasmPlugin;
pub use registry::SessionRegistry;
pub use session::ReadOutcome;
pub use session::Session;
pub use status::ExitStatus;
pub use status::IoError;
pub use status::SessionState;
pub use status::SpawnError;
pub use status::TerminateOutcome;
pub use supervisor::Supervisor;
pub use supervisor::TerminateAction;
pub use supervisor::classify_spawn_failure;
