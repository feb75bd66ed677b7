use staked_nodes_overrides_updater::overrides::ipv4;
use staked_nodes_overrides_updater::overrides::IpAddrKey;
use staked_nodes_overrides_updater::overrides::StakeMap;
use staked_nodes_overrides_updater::overrides::StakedNodesOverrides;

#[test]
fn ipv4_key_packs_octets() {
    assert_eq!(ipv4(10, 0, 0, 1), IpAddrKey::V4(167772161));
    assert_eq!(ipv4(0, 0, 0, 0), IpAddrKey::V4(0));
    assert_eq!(ipv4(255, 255, 255, 255), IpAddrKey::V4(u32::MAX));
}

#[test]
fn empty_map_has_no_weights() {
    let m = StakeMap::new();
    assert_eq!(m.get(ipv4(10, 0, 0, 1)), None);
}

#[test]
fn insert_then_get_returns_weight() {
    let mut m = StakeMap::new();
    m.insert(ipv4(10, 0, 0, 1), 5);
    m.insert(ipv4(10, 0, 0, 2), 7);
    m.insert(IpAddrKey::V6(1), 11);
    assert_eq!(m.get(ipv4(10, 0, 0, 1)), Some(5));
    assert_eq!(m.get(ipv4(10, 0, 0, 2)), Some(7));
    assert_eq!(m.get(IpAddrKey::V6(1)), Some(11));
    assert_eq!(m.get(ipv4(10, 0, 0, 3)), None);
}

#[test]
fn insert_same_address_overrides() {
    let mut m = StakeMap::new();
    m.insert(ipv4(10, 0, 0, 1), 5);
    m.insert(ipv4(10, 0, 0, 1), 9);
    assert_eq!(m.get(ipv4(10, 0, 0, 1)), Some(9));
}

#[test]
fn from_entries_later_entry_wins() {
    let entries = vec![
        (ipv4(10, 0, 0, 1), 5),
        (ipv4(10, 0, 0, 2), 7),
        (ipv4(10, 0, 0, 1), 9),
    ];
    let m = StakeMap::from_entries(entries);
    assert_eq!(m.get(ipv4(10, 0, 0, 1)), Some(9));
    assert_eq!(m.get(ipv4(10, 0, 0, 2)), Some(7));
}

#[test]
fn duplicate_copies_contents() {
    let mut m = StakeMap::new();
    m.insert(ipv4(10, 0, 0, 1), 5);
    let copy = m.duplicate();
    assert_eq!(copy.get(ipv4(10, 0, 0, 1)), Some(5));
    assert_eq!(copy.get(ipv4(10, 0, 0, 2)), None);
}

#[test]
fn default_snapshot_is_off_and_empty() {
    let snap = StakedNodesOverrides::default();
    assert!(!snap.auto_reload);
    assert_eq!(snap.stake_map.get(ipv4(10, 0, 0, 1)), None);
}

#[test]
fn v4_and_v6_keys_are_distinct() {
    let mut m = StakeMap::new();
    m.insert(IpAddrKey::V4(1), 5);
    m.insert(IpAddrKey::V6(1), 7);
    assert_eq!(m.get(IpAddrKey::V4(1)), Some(5));
    assert_eq!(m.get(IpAddrKey::V6(1)), Some(7));
}
