//! What the desktop shell reports of its runtime.
use vstd::prelude::*;

verus! {

/// The runtime of the desktop shell.
#[derive(Debug, Clone)]
pub struct DesktopRuntimeHealth {
    pub shell: String,
    pub secure_store: String,
    pub command_bus: String,
}

/// The desktop shell runs on Tauri, keeps secrets in the OS keychain, and
/// talks to the local Rust control plane.
pub fn desktop_runtime_health() -> (health: DesktopRuntimeHealth)
    ensures
        health.shell@ == "tauri"@,
        health.secure_store@ == "os-keychain"@,
        health.command_bus@ == "local-rust-control-plane"@,
{
    DesktopRuntimeHealth {
        shell: String::from_str("tauri"),
        secure_store: String::from_str("os-keychain"),
        command_bus: String::from_str("local-rust-control-plane"),
    }
}

} // verus!
