use rencfs_desktop::dashboard::{load_items, Item};
use rencfs_desktop::models::{NewVault, Vault};

fn vault(id: i32, name: &str, locked: i32) -> Vault {
    Vault {
        id,
        name: name.to_string(),
        mount_point: format!("/mnt/{}", name),
        data_dir: format!("/data/{}", name),
        locked,
    }
}

#[test]
fn item_shows_the_fields_of_the_vault() {
    let item = Item::from_vault(&vault(3, "work", 1));
    assert_eq!(
        item,
        Item {
            id: 3,
            name: "work".to_string(),
            mount_point: "/mnt/work".to_string(),
            data_dir: "/data/work".to_string(),
            locked: true,
        }
    );
}

#[test]
fn only_flag_one_means_locked() {
    assert!(Item::from_vault(&vault(1, "a", 1)).locked);
    assert!(!Item::from_vault(&vault(1, "a", 0)).locked);
    assert!(!Item::from_vault(&vault(1, "a", 2)).locked);
    assert!(!Item::from_vault(&vault(1, "a", -1)).locked);
    assert!(vault(1, "a", 1).is_locked());
    assert!(!vault(1, "a", 0).is_locked());
}

#[test]
fn locked_flag_is_stored_as_one_or_zero() {
    assert_eq!(Vault::locked_value(true), 1);
    assert_eq!(Vault::locked_value(false), 0);
}

#[test]
fn search_looks_in_the_name() {
    let item = Item::from_vault(&vault(3, "work files", 0));
    assert!(item.on_search("work"));
    assert!(item.on_search("k f"));
    assert!(item.on_search(""));
    assert!(!item.on_search("mnt"));
    assert!(!item.on_search("Work"));
}

#[test]
fn items_follow_the_order_of_the_vaults() {
    let vaults = vec![vault(2, "b", 1), vault(1, "a", 0), vault(5, "c", 1)];
    let items = load_items(&vaults);
    assert_eq!(items.len(), 3);
    assert_eq!(items[0].id, 2);
    assert_eq!(items[1].id, 1);
    assert_eq!(items[2].id, 5);
    assert!(items[0].locked);
    assert!(!items[1].locked);
    assert_eq!(load_items(&Vec::new()), Vec::<Item>::new());
}

#[test]
fn new_vault_holds_what_it_is_given() {
    let v = NewVault {
        name: "n".to_string(),
        mount_point: "/m".to_string(),
        data_dir: "/d".to_string(),
    };
    assert_eq!(v.name, "n");
    assert_eq!(v.mount_point, "/m");
    assert_eq!(v.data_dir, "/d");
}
