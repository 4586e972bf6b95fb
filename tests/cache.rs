use ddcrust::{Cache, IpAddress, WanIps};

type PlainIp = Option<(bool, u128)>;

fn plain(ip: Option<IpAddress>) -> PlainIp {
    match ip {
        Some(IpAddress::V4(x)) => Some((false, x as u128)),
        Some(IpAddress::V6(x)) => Some((true, x)),
        None => None,
    }
}

fn unplain(ip: PlainIp) -> Option<IpAddress> {
    match ip {
        Some((false, x)) => Some(IpAddress::V4(x as u32)),
        Some((true, x)) => Some(IpAddress::V6(x)),
        None => None,
    }
}

#[test]
fn get_on_empty_cache_is_none() {
    let c = Cache::new("cache.bin".to_string());
    assert_eq!(c.get("a@b".to_string()), None);
    assert_eq!(c.path(), "cache.bin");
    assert!(c.to_entries().is_empty());
}

#[test]
fn insert_replaces_value_under_equal_key() {
    let mut c = Cache::new("cache.bin".to_string());
    let a = WanIps { ip: Some(IpAddress::V4(1)), ipv6: None };
    let b = WanIps { ip: None, ipv6: Some(IpAddress::V6(2)) };
    c.insert("k".to_string(), a);
    c.insert("other".to_string(), a);
    c.insert("k".to_string(), b);
    assert_eq!(c.get("k".to_string()), Some(&b));
    assert_eq!(c.get("other".to_string()), Some(&a));
    assert_eq!(c.to_entries().len(), 2);
}

#[test]
fn from_entries_later_entry_wins() {
    let a = WanIps { ip: Some(IpAddress::V4(1)), ipv6: None };
    let b = WanIps { ip: Some(IpAddress::V4(2)), ipv6: None };
    let c = Cache::from_entries(
        "p".to_string(),
        vec![("k".to_string(), a), ("k".to_string(), b)],
    );
    assert_eq!(c.get("k".to_string()), Some(&b));
    assert_eq!(c.to_entries().len(), 1);
}

#[test]
fn round_trip_through_bytes() {
    let mut c = Cache::new("cache.bin".to_string());
    let a = WanIps { ip: Some(IpAddress::V4(u32::from_be_bytes([1, 2, 3, 4]))), ipv6: None };
    c.insert("a@b".to_string(), a);
    let plain_entries: Vec<(String, PlainIp, PlainIp)> = c
        .to_entries()
        .into_iter()
        .map(|(k, v)| (k, plain(v.ip), plain(v.ipv6)))
        .collect();
    let bytes = bincode::serialize(&(c.path().clone(), plain_entries)).unwrap();
    let (path, back): (String, Vec<(String, PlainIp, PlainIp)>) =
        bincode::deserialize(&bytes).unwrap();
    let entries: Vec<(String, WanIps)> = back
        .into_iter()
        .map(|(k, ip, ipv6)| (k, WanIps { ip: unplain(ip), ipv6: unplain(ipv6) }))
        .collect();
    let reloaded = Cache::from_entries(path, entries);
    assert_eq!(reloaded.path(), "cache.bin");
    assert_eq!(reloaded.get("a@b".to_string()), Some(&a));
    assert_eq!(reloaded.to_entries().len(), 1);
}
