//! Who asks to be authenticated: the user id, the terminal and the PAM
//! service of an authentication request, as the PAM module sends them.

use vstd::prelude::*;

use crate::bytes::{bytes_equal, bytes_to_vec};

verus! {

/// The abstract value of an identity.
pub ghost struct IdentityView {
    pub uid: u32,
    pub tty: Seq<u8>,
    pub service: Seq<u8>,
}

/// The identity carried by an authentication request. `tty` and `service`
/// hold the raw bytes of the fixed-size C string fields.
pub struct AuthIdentity {
    pub uid: u32,
    pub tty: Vec<u8>,
    pub service: Vec<u8>,
}

impl View for AuthIdentity {
    type V = IdentityView;

    open spec fn view(&self) -> IdentityView {
        IdentityView { uid: self.uid, tty: self.tty@, service: self.service@ }
    }
}

impl AuthIdentity {
    /// Whether two identities agree in every field.
    pub fn same_identity(&self, other: &AuthIdentity) -> (same: bool)
        ensures
            same == (self@ == other@),
    {
        self.uid == other.uid && bytes_equal(self.tty.as_slice(), other.tty.as_slice())
            && bytes_equal(self.service.as_slice(), other.service.as_slice())
    }
}

impl Clone for AuthIdentity {
    fn clone(&self) -> (c: Self)
        ensures
            c@ == self@,
    {
        AuthIdentity {
            uid: self.uid,
            tty: bytes_to_vec(self.tty.as_slice()),
            service: bytes_to_vec(self.service.as_slice()),
        }
    }
}

} // verus!
