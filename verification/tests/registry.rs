use std::collections::BTreeMap;

use stratisd::engine::{Owned, Pool, Pools};
use stratisd::types::{ErrorEnum, StratisError};

fn idle_pool(path: &str) -> Pool {
    Pool::new(path.to_string(), Vec::new())
}

fn pool_with(path: &str, filesystems: &[&str], block_devs: &[&str], cache_devs: &[&str]) -> Pool {
    Pool {
        object_path: path.to_string(),
        filesystems: filesystems.iter().map(|s| s.to_string()).collect(),
        block_devs: block_devs.iter().map(|s| s.to_string()).collect(),
        cache_devs: cache_devs.iter().map(|s| s.to_string()).collect(),
    }
}

fn busy(text: &str) -> StratisError {
    StratisError::Stratis(ErrorEnum::Busy(text.to_string()))
}

#[test]
fn new_registry_is_empty() {
    let pools = Pools::new();
    assert_eq!(pools.len(), 0);
    assert_eq!(pools.list(), Vec::<String>::new());
    assert!(!pools.contains_key("data"));
    assert!(pools.get("data").is_none());
}

#[test]
fn new_pool_owns_its_devices_only() {
    let pool = Pool::new("/base/1".to_string(), vec!["/dev/sda".to_string()]);
    assert_eq!(pool.object_path, "/base/1");
    assert_eq!(pool.block_devs, vec!["/dev/sda".to_string()]);
    assert!(pool.filesystems.is_empty());
    assert!(pool.cache_devs.is_empty());
}

#[test]
fn insert_adds_a_pool_once() {
    let mut pools = Pools::new();
    assert!(pools.insert("data".to_string(), idle_pool("/base/1")));
    assert!(pools.contains_key("data"));
    assert_eq!(pools.len(), 1);
    assert!(!pools.insert("data".to_string(), idle_pool("/base/2")));
    assert_eq!(pools.len(), 1);
    assert_eq!(pools.get("data").unwrap().object_path, "/base/1");
}

#[test]
fn list_is_in_byte_order_of_the_names() {
    let mut pools = Pools::new();
    for name in ["b", "aa", "a", "B", "\u{e9}", "z", ""] {
        assert!(pools.insert(name.to_string(), idle_pool("/")));
    }
    let expected: Vec<String> =
        ["", "B", "a", "aa", "b", "z", "\u{e9}"].iter().map(|s| s.to_string()).collect();
    assert_eq!(pools.list(), expected);
    let mut sorted = expected.clone();
    sorted.sort();
    assert_eq!(sorted, expected);
}

#[test]
fn remove_of_an_unknown_name_is_no_failure() {
    let mut pools = Pools::new();
    assert_eq!(pools.remove("data"), Ok(false));
    assert!(pools.insert("data".to_string(), idle_pool("/base/1")));
    let before = pools.clone();
    assert_eq!(pools.remove("other"), Ok(false));
    assert_eq!(pools, before);
}

#[test]
fn remove_of_an_idle_pool_takes_it_out() {
    let mut pools = Pools::new();
    assert!(pools.insert("a".to_string(), idle_pool("/base/1")));
    assert!(pools.insert("b".to_string(), idle_pool("/base/2")));
    assert_eq!(pools.remove("a"), Ok(true));
    assert!(!pools.contains_key("a"));
    assert_eq!(pools.list(), vec!["b".to_string()]);
    assert_eq!(pools.get("b").unwrap().object_path, "/base/2");
}

#[test]
fn remove_of_a_pool_with_filesystems_is_busy() {
    let mut pools = Pools::new();
    assert!(pools.insert("data".to_string(), pool_with("/base/1", &["fs"], &["/dev/sda"], &["/dev/sdc"])));
    let before = pools.clone();
    assert_eq!(pools.remove("data"), Err(busy("filesystems remaining on pool")));
    assert_eq!(pools, before);
}

#[test]
fn remove_of_a_pool_with_devices_is_busy() {
    let mut pools = Pools::new();
    assert!(pools.insert("data".to_string(), pool_with("/base/1", &[], &["/dev/sda"], &["/dev/sdc"])));
    let before = pools.clone();
    assert_eq!(pools.remove("data"), Err(busy("devices remaining in pool")));
    assert_eq!(pools, before);
}

#[test]
fn remove_of_a_pool_with_cache_devices_is_busy() {
    let mut pools = Pools::new();
    assert!(pools.insert("data".to_string(), pool_with("/base/1", &[], &[], &["/dev/sdc"])));
    let before = pools.clone();
    assert_eq!(pools.remove("data"), Err(busy("cache devices remaining in pool")));
    assert_eq!(pools, before);
}

#[test]
fn busy_names_what_the_pool_owns() {
    assert_eq!(idle_pool("/").busy(), None);
    assert_eq!(pool_with("/", &["fs"], &[], &[]).busy(), Some("filesystems remaining on pool"));
    assert_eq!(pool_with("/", &[], &["d"], &[]).busy(), Some("devices remaining in pool"));
    assert_eq!(pool_with("/", &[], &[], &["c"]).busy(), Some("cache devices remaining in pool"));
}

#[test]
fn get_mut_of_an_unknown_name_is_not_found() {
    let mut pools = Pools::new();
    assert_eq!(
        pools.get_mut("data").err(),
        Some(StratisError::Stratis(ErrorEnum::NotFound("data".to_string())))
    );
}

#[test]
fn get_mut_changes_the_pool_in_place() {
    let mut pools = Pools::new();
    assert!(pools.insert("a".to_string(), idle_pool("/base/1")));
    assert!(pools.insert("b".to_string(), idle_pool("/base/2")));
    pools.get_mut("a").unwrap().filesystems.push("fs".to_string());
    assert_eq!(pools.get("a").unwrap().filesystems, vec!["fs".to_string()]);
    assert!(pools.get("b").unwrap().filesystems.is_empty());
    assert_eq!(pools.list(), vec!["a".to_string(), "b".to_string()]);
}

#[test]
fn rename_to_the_same_name_does_nothing() {
    let mut pools = Pools::new();
    assert_eq!(pools.rename("a", "a"), Ok(false));
    assert!(pools.insert("a".to_string(), idle_pool("/base/1")));
    let before = pools.clone();
    assert_eq!(pools.rename("a", "a"), Ok(false));
    assert_eq!(pools, before);
}

#[test]
fn rename_to_a_taken_name_fails() {
    let mut pools = Pools::new();
    assert!(pools.insert("a".to_string(), idle_pool("/base/1")));
    assert!(pools.insert("b".to_string(), idle_pool("/base/2")));
    let before = pools.clone();
    assert_eq!(
        pools.rename("a", "b"),
        Err(StratisError::Stratis(ErrorEnum::AlreadyExists("b".to_string())))
    );
    assert_eq!(pools, before);
}

#[test]
fn rename_of_an_unknown_name_does_nothing() {
    let mut pools = Pools::new();
    assert!(pools.insert("b".to_string(), idle_pool("/base/2")));
    let before = pools.clone();
    assert_eq!(pools.rename("a", "b"), Ok(false));
    assert_eq!(pools.rename("a", "c"), Ok(false));
    assert_eq!(pools, before);
}

#[test]
fn rename_moves_the_pool_as_it_is() {
    let mut pools = Pools::new();
    let pool = pool_with("/base/7", &["fs"], &["/dev/sda"], &[]);
    assert!(pools.insert("m".to_string(), pool.clone()));
    assert!(pools.insert("a".to_string(), idle_pool("/base/1")));
    assert_eq!(pools.rename("m", "z"), Ok(true));
    assert_eq!(pools.get("z"), Some(&pool));
    assert!(pools.get("m").is_none());
    assert_eq!(pools.list(), vec!["a".to_string(), "z".to_string()]);
    assert_eq!(pools.rename("z", "0"), Ok(true));
    assert_eq!(pools.list(), vec!["0".to_string(), "a".to_string()]);
    assert_eq!(pools.get("0"), Some(&pool));
}

#[test]
fn owner_is_the_first_pool_that_owns_the_thing() {
    let mut pools = Pools::new();
    assert!(pools.insert("b".to_string(), pool_with("/base/2", &["fs"], &["/dev/sda"], &[])));
    assert!(pools.insert("a".to_string(), pool_with("/base/1", &[], &["/dev/sda"], &["/dev/sdc"])));
    assert_eq!(pools.owner_of(Owned::BlockDev, "/dev/sda").unwrap().object_path, "/base/1");
    assert_eq!(pools.owner_of(Owned::Filesystem, "fs").unwrap().object_path, "/base/2");
    assert_eq!(pools.owner_of(Owned::CacheDev, "/dev/sdc").unwrap().object_path, "/base/1");
    assert!(pools.owner_of(Owned::CacheDev, "/dev/sda").is_none());
    assert!(pools.owner_of(Owned::Filesystem, "other").is_none());
}

#[test]
fn pool_owns_what_it_holds() {
    let pool = pool_with("/", &["fs"], &["dev"], &["cache"]);
    assert!(pool.owns(Owned::Filesystem, "fs"));
    assert!(pool.owns(Owned::BlockDev, "dev"));
    assert!(pool.owns(Owned::CacheDev, "cache"));
    assert!(!pool.owns(Owned::Filesystem, "dev"));
    assert!(!pool.owns(Owned::BlockDev, "cache"));
    assert!(!pool.owns(Owned::CacheDev, "fs"));
}

#[test]
fn registry_behaves_as_an_ordered_map() {
    let names = ["", "a", "b", "ab", "ba", "B", "z", "\u{e9}", "pool", "pool1"];
    let mut pools = Pools::new();
    let mut model: BTreeMap<String, Pool> = BTreeMap::new();
    let mut state: u64 = 0x2545f4914f6cdd1d;
    for step in 0..4000u64 {
        state = state.wrapping_mul(6364136223846793005).wrapping_add(1442695040888963407);
        let op = (state >> 33) % 5;
        let name = names[((state >> 40) % 10) as usize];
        let other = names[((state >> 48) % 10) as usize];
        match op {
            0 => {
                let pool = if (state >> 56) % 2 == 0 {
                    idle_pool(&format!("/base/{}", step))
                } else {
                    pool_with(&format!("/base/{}", step), &["fs"], &[], &[])
                };
                let inserted = !model.contains_key(name);
                if inserted {
                    model.insert(name.to_string(), pool.clone());
                }
                assert_eq!(pools.insert(name.to_string(), pool), inserted);
            }
            1 => {
                let expected = match model.get(name) {
                    None => Ok(false),
                    Some(pool) if !pool.filesystems.is_empty() => Err(busy("filesystems remaining on pool")),
                    Some(_) => {
                        model.remove(name);
                        Ok(true)
                    }
                };
                assert_eq!(pools.remove(name), expected);
            }
            2 => {
                let expected = if name == other {
                    Ok(false)
                } else if model.contains_key(other) {
                    if model.contains_key(name) {
                        Err(StratisError::Stratis(ErrorEnum::AlreadyExists(other.to_string())))
                    } else {
                        Ok(false)
                    }
                } else if let Some(pool) = model.remove(name) {
                    model.insert(other.to_string(), pool);
                    Ok(true)
                } else {
                    Ok(false)
                };
                assert_eq!(pools.rename(name, other), expected);
            }
            3 => {
                match (pools.get_mut(name), model.get_mut(name)) {
                    (Ok(pool), Some(held)) => {
                        pool.filesystems.clear();
                        held.filesystems.clear();
                    }
                    (Err(err), None) => {
                        assert_eq!(err, StratisError::Stratis(ErrorEnum::NotFound(name.to_string())));
                    }
                    _ => panic!("the registry and the map differ on {:?}", name),
                }
            }
            _ => {
                assert_eq!(pools.get(name), model.get(name));
                assert_eq!(pools.contains_key(name), model.contains_key(name));
            }
        }
        assert_eq!(pools.len(), model.len());
        assert_eq!(pools.list(), model.keys().cloned().collect::<Vec<String>>());
    }
}
