//! The kinds of failure a vault operation can end in.

use vstd::prelude::*;

verus! {

/// Why an operation on a vault failed.
#[derive(Clone, Copy, Debug, PartialEq, Eq, Structural)]
pub enum VaultHandlerError {
    CannotLockVault,
    CannotUnlockVault,
    CannotChangeMountPoint,
    CannotChangeDataDir,
}

impl VaultHandlerError {
    /// The human-readable text of this kind.
    pub open spec fn message_spec(self) -> Seq<char> {
        match self {
            VaultHandlerError::CannotLockVault => "cannot lock vault"@,
            VaultHandlerError::CannotUnlockVault => "cannot unlock vault"@,
            VaultHandlerError::CannotChangeMountPoint => "cannot change mount point"@,
            VaultHandlerError::CannotChangeDataDir => "cannot change data dir"@,
        }
    }

    /// Renders this kind as the text shown to a user.
    pub fn message(&self) -> (text: String)
        ensures
            text@ == self.message_spec(),
    {
        match self {
            VaultHandlerError::CannotLockVault => String::from_str("cannot lock vault"),
            VaultHandlerError::CannotUnlockVault => String::from_str("cannot unlock vault"),
            VaultHandlerError::CannotChangeMountPoint => String::from_str("cannot change mount point"),
            VaultHandlerError::CannotChangeDataDir => String::from_str("cannot change data dir"),
        }
    }
}

} // verus!
