//! The vaults as a list shows them.

use vstd::prelude::*;
use crate::models::{Vault, VaultView};
use crate::text::{contains_text, text_contains};

verus! {

/// One line of the list of vaults.
#[derive(Clone, Debug, PartialEq, Eq)]
pub struct Item {
    pub id: i32,
    pub name: String,
    pub mount_point: String,
    pub data_dir: String,
    pub locked: bool,
}

/// An [`Item`] as mathematical values.
pub struct ItemView {
    pub id: i32,
    pub name: Seq<char>,
    pub mount_point: Seq<char>,
    pub data_dir: Seq<char>,
    pub locked: bool,
}

impl View for Item {
    type V = ItemView;

    open spec fn view(&self) -> ItemView {
        ItemView {
            id: self.id,
            name: self.name@,
            mount_point: self.mount_point@,
            data_dir: self.data_dir@,
            locked: self.locked,
        }
    }
}

/// The line that shows the stored vault `vault`: the same fields, locked
/// where the stored flag is 1.
pub open spec fn item_of(vault: VaultView) -> ItemView {
    ItemView {
        id: vault.id,
        name: vault.name,
        mount_point: vault.mount_point,
        data_dir: vault.data_dir,
        locked: vault.locked == 1,
    }
}

impl Item {
    /// The line that shows `vault`.
    pub fn from_vault(vault: &Vault) -> (item: Item)
        ensures
            item@ == item_of(vault@),
    {
        Item {
            id: vault.id,
            name: vault.name.clone(),
            mount_point: vault.mount_point.clone(),
            data_dir: vault.data_dir.clone(),
            locked: vault.is_locked(),
        }
    }

    /// Whether a search for `text` finds this line: the name holds the text.
    pub fn on_search(&self, text: &str) -> (found: bool)
        ensures
            found == contains_text(self@.name, text@),
    {
        text_contains(self.name.as_str(), text)
    }
}

/// The lines that show `vaults`, in the same order.
pub fn load_items(vaults: &Vec<Vault>) -> (items: Vec<Item>)
    ensures
        items@.len() == vaults@.len(),
        forall|i: int| 0 <= i < vaults@.len() ==> (#[trigger] items@[i])@ == item_of(vaults@[i]@),
{
    let mut items: Vec<Item> = Vec::new();
    let mut i: usize = 0;
    while i < vaults.len()
        invariant
            i <= vaults.len(),
            items@.len() == i,
            forall|k: int| 0 <= k < i ==> (#[trigger] items@[k])@ == item_of(vaults@[k]@),
        decreases vaults.len() - i,
    {
        items.push(Item::from_vault(&vaults[i]));
        i = i + 1;
    }
    items
}

} // verus!
