//! Record of the filesystem path that exposes the device, kept so that the
//! surrounding process can remove the symbolic link when the session ends.

use vstd::prelude::*;

verus! {

/// Remembers the symbolic-link path chosen for the virtual port.
pub struct Cleanup {
    pub link_path: String,
}

impl Cleanup {
    /// Records the link path to remove at shutdown.
    pub fn new(link_path: String) -> (r: Cleanup)
        ensures
            r.link_path == link_path,
    {
        Cleanup { link_path }
    }
}

} // verus!
