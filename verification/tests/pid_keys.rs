//! Maps with numeric keys.

use edge_config::pid_keys::{KeyedMap, read_keys, write_keys};
use std::collections::BTreeMap;

fn entries(list: &[(&str, u16)]) -> Vec<(String, u16)> {
    list.iter().map(|(k, v)| (k.to_string(), *v)).collect()
}

#[test]
fn a_map_that_is_written_reads_back() {
    let mut map: BTreeMap<u16, u16> = BTreeMap::new();
    map.insert(256, 768);
    map.insert(0, 1);
    map.insert(65535, 2);
    let written = write_keys(&map);
    let plain: Vec<(String, u16)> = written.iter().map(|(k, v)| (k.clone(), **v)).collect();
    assert_eq!(plain, entries(&[("0", 1), ("256", 768), ("65535", 2)]));
    for kind in [KeyedMap::PidMap, KeyedMap::AudioPids, KeyedMap::PidOverrides] {
        assert_eq!(read_keys(kind, plain.clone()).unwrap(), map);
    }
    let empty: BTreeMap<u16, u16> = BTreeMap::new();
    assert!(write_keys(&empty).is_empty());
    assert_eq!(read_keys::<u16>(KeyedMap::PidMap, Vec::new()).unwrap(), empty);
}

#[test]
fn of_two_entries_with_the_same_number_the_later_counts() {
    let read = read_keys(KeyedMap::PidMap, entries(&[("+256", 1), ("0256", 2)])).unwrap();
    assert_eq!(read.len(), 1);
    assert_eq!(read.get(&256), Some(&2));
}

#[test]
fn keys_that_are_no_numbers_are_refused() {
    let message = |kind: KeyedMap, key: &str| {
        read_keys(kind, entries(&[("1", 1), (key, 2)])).unwrap_err().to_string()
    };
    assert_eq!(
        message(KeyedMap::PidMap, "65536"),
        "pid_map key must be a u16 (0-65535), got \"65536\""
    );
    assert_eq!(
        message(KeyedMap::AudioPids, "-1"),
        "audio_pids key must be a u16 source PID (0-65535), got \"-1\""
    );
    assert_eq!(
        message(KeyedMap::PidOverrides, "a\"b\n"),
        "pid_overrides key must be a u16 program_number (0-65535), got \"a\\\"b\\n\""
    );
    assert!(read_keys(KeyedMap::PidMap, entries(&[("", 1)])).is_err());
    assert!(read_keys(KeyedMap::PidMap, entries(&[("+", 1)])).is_err());
    assert!(read_keys(KeyedMap::PidMap, entries(&[("0x10", 1)])).is_err());
}
