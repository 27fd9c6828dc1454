//! Values that the shell around the engine hands to its front end.

use vstd::prelude::*;

verus! {

/// Where the local control server listens.
#[derive(Clone, Copy, Debug, PartialEq, Eq)]
pub struct ServerConfig {
    pub server_port: u16,
}

/// The configuration of a server on `server_port`.
pub fn get_server_config(server_port: u16) -> (config: Result<ServerConfig, String>)
    ensures
        config == Ok::<ServerConfig, String>(ServerConfig { server_port }),
{
    Ok(ServerConfig { server_port })
}

/// A file that the shell was opened with and that has not been imported
/// yet.
#[derive(Debug, PartialEq, Eq)]
pub struct PendingImport {
    pub file_path: Option<String>,
}

/// Hands out the pending file, if there is one. It is handed out once: the
/// slot is empty afterwards.
pub fn get_pending_import(state: &mut PendingImport) -> (path: Option<String>)
    ensures
        path == old(state).file_path,
        final(state).file_path is None,
{
    state.file_path.take()
}

/// Empties the slot.
pub fn clear_pending_import(state: &mut PendingImport)
    ensures
        final(state).file_path is None,
{
    state.file_path = None;
}

} // verus!
