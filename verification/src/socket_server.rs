//! Who may talk to the daemon over its UNIX socket: only a peer whose
//! credentials show the superuser, as the PAM module runs.

use vstd::prelude::*;

verus! {

/// Where the daemon listens for the PAM module.
pub const SOCKET_PATH: &'static str = "/run/wrist-hello/auth.sock";

/// Whether a peer with user id `uid` may request an authentication.
pub fn is_peer_root(uid: u32) -> (allowed: bool)
    ensures
        allowed == (uid == 0),
{
    uid == 0
}

} // verus!
