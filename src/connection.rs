use vstd::prelude::*;

verus! {

/// Decisions about misbehaving connections. No marks are kept yet, so no connection is
/// ever reported for disconnection.
pub struct ConnectionManager;

impl ConnectionManager {
    /// Notes that a connection misbehaved; nothing is stored, so nothing a caller can
    /// observe changes.
    pub fn mark_problematic_socket(socket_id: &str) {
    }

    /// Whether a connection should be dropped: never, so that no connection is dropped on a
    /// false alarm.
    pub fn should_disconnect_socket(socket_id: &str) -> (r: bool)
        ensures
            r == false,
    {
        false
    }
}

} // verus!
