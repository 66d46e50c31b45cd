//! The vault records that the metadata store keeps.

use vstd::prelude::*;

verus! {

/// One stored vault: a mount point paired with an encrypted data directory.
#[derive(Clone, Debug, PartialEq, Eq)]
pub struct Vault {
    pub id: i32,
    pub name: String,
    pub mount_point: String,
    pub data_dir: String,
    pub locked: i32,
}

/// What a `Vault` holds, as mathematical values.
pub struct VaultView {
    pub id: i32,
    pub name: Seq<char>,
    pub mount_point: Seq<char>,
    pub data_dir: Seq<char>,
    pub locked: i32,
}

impl View for Vault {
    type V = VaultView;

    open spec fn view(&self) -> VaultView {
        VaultView {
            id: self.id,
            name: self.name@,
            mount_point: self.mount_point@,
            data_dir: self.data_dir@,
            locked: self.locked,
        }
    }
}

/// The stored value of the `locked` column for a lock state.
pub open spec fn locked_column(locked: bool) -> i32 {
    if locked {
        1i32
    } else {
        0i32
    }
}

impl Vault {
    /// Whether the record says that the vault is locked: the stored flag is 1.
    pub open spec fn is_locked_spec(self) -> bool {
        self.locked == 1
    }

    /// Reads the persisted lock state of this record.
    pub fn is_locked(&self) -> (locked: bool)
        ensures
            locked == self.is_locked_spec(),
    {
        self.locked == 1
    }

    /// The value to store in the `locked` column for `locked`.
    pub fn locked_value(locked: bool) -> (value: i32)
        ensures
            value == locked_column(locked),
    {
        if locked {
            1
        } else {
            0
        }
    }
}

/// A vault that is about to be stored; the store assigns its id, and it
/// starts out locked.
#[derive(Debug, PartialEq, Eq)]
pub struct NewVault {
    pub name: String,
    pub mount_point: String,
    pub data_dir: String,
}

/// What a `NewVault` holds, as mathematical values.
pub struct NewVaultView {
    pub name: Seq<char>,
    pub mount_point: Seq<char>,
    pub data_dir: Seq<char>,
}

impl View for NewVault {
    type V = NewVaultView;

    open spec fn view(&self) -> NewVaultView {
        NewVaultView { name: self.name@, mount_point: self.mount_point@, data_dir: self.data_dir@ }
    }
}

} // verus!
