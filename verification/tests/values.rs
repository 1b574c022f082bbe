//! Addresses, numbers and keys.

use edge_config::addr::{IpAddress, ip_string, parse_ip, parse_socket};
use edge_config::binary::{Binary64, HALF, HUNDRED_THOUSAND, TEN, TEN_THOUSAND, at_most, less_than};
use edge_config::id_map::IdMap;
use edge_config::models::VideoEncodeConfig;
use edge_config::number::parse_unsigned;
use edge_config::ratio::three_places_string;
use edge_config::validation::validate_video_encode;

fn v4(a: u32, b: u32, c: u32, d: u32) -> IpAddress {
    IpAddress::V4 { bits: (a << 24) | (b << 16) | (c << 8) | d }
}

#[test]
fn socket_addresses_are_read() {
    let good = [
        ("0.0.0.0:0", "0.0.0.0", 0),
        ("127.0.0.1:5000", "127.0.0.1", 5000),
        ("255.255.255.255:65535", "255.255.255.255", 65535),
        ("1.2.3.4:00080", "1.2.3.4", 80),
        ("[::]:5000", "::", 5000),
        ("[::1]:5004", "::1", 5004),
        ("[1:2:3:4:5:6:7:8]:1", "1:2:3:4:5:6:7:8", 1),
        ("[::ffff:1.2.3.4]:9", "::ffff:1.2.3.4", 9),
        ("[1:2:3:4:5:6:1.2.3.4]:9", "1:2:3:4:5:6:102:304", 9),
        ("[fe80::1%5]:80", "fe80::1", 80),
        ("[1:2:3:4:5:6:7::]:80", "1:2:3:4:5:6:7:0", 80),
        ("[::2:3:4:5:6:7:8]:80", "0:2:3:4:5:6:7:8", 80),
        ("[ff7e::1]:5000", "ff7e::1", 5000),
    ];
    for (s, ip, port) in good {
        let read = parse_socket(s).unwrap();
        assert_eq!(ip_string(read.ip), ip, "{s}");
        assert_eq!(read.port, port, "{s}");
    }
    let bad = [
        "1.2.3.4", "1.2.3.4:", "1.2.3.4:65536", "01.2.3.4:80", "256.1.1.1:80", "1.2.3:80",
        "1.2.3.4.5:80", " 1.2.3.4:80", "1.2.3.4:80 ", "1.2.3.4:+80", "localhost:80", "", ":",
        "::1:80", "[::1]", "[::1]:", "[::1:80", "[1::2::3]:80", "[1:2:3:4:5:6:7]:1",
        "[1:2:3:4:5:6:7:1.2.3.4]:9", "[::1.2.3]:9", "[fe80::1%]:80", "[fe80::1%eth0]:80",
        "[12345::]:80", "[::G]:80",
    ];
    for s in bad {
        assert!(parse_socket(s).is_none(), "{s}");
    }
}

#[test]
fn ip_addresses_are_read_and_shown() {
    let good = [
        ("0.0.0.0", "0.0.0.0"),
        ("10.0.0.5", "10.0.0.5"),
        ("::", "::"),
        ("::1", "::1"),
        ("1::", "1::"),
        ("1:0:0:2::3", "1:0:0:2::3"),
        ("1:0:0:2:0:0:0:3", "1:0:0:2::3"),
        ("0:1:0:1:0:1:0:1", "0:1:0:1:0:1:0:1"),
        ("2001:db8::ff00:42:8329", "2001:db8::ff00:42:8329"),
        ("::ffff:192.168.0.1", "::ffff:192.168.0.1"),
        ("::192.168.0.1", "::c0a8:1"),
        ("ABCD::", "abcd::"),
    ];
    for (s, shown) in good {
        assert_eq!(ip_string(parse_ip(s).unwrap()), shown, "{s}");
    }
    for s in ["1.2.3.04", "1.2.3", "fe80::1%5", "[::1]", "1:2:3:4:5:6:7:8:9", "not-an-ip", "", "::1 "] {
        assert!(parse_ip(s).is_none(), "{s}");
    }
    assert_eq!(parse_ip("10.0.0.5"), Some(v4(10, 0, 0, 5)));
    assert_eq!(parse_ip("::1"), Some(IpAddress::V6 { bits: 1 }));
}

#[test]
fn kinds_of_addresses() {
    let multicast = |s: &str| parse_ip(s).unwrap().is_multicast();
    assert!(multicast("224.0.0.0") && multicast("239.255.255.255") && multicast("ff02::1"));
    assert!(!multicast("223.255.255.255") && !multicast("240.0.0.0") && !multicast("fe80::1"));
    let unspecified = |s: &str| parse_ip(s).unwrap().is_unspecified();
    assert!(unspecified("0.0.0.0") && unspecified("::"));
    assert!(!unspecified("0.0.0.1") && !unspecified("::1") && !unspecified("::ffff:0.0.0.0"));
    assert!(parse_ip("1.2.3.4").unwrap().is_ipv4());
    assert!(!parse_ip("::ffff:1.2.3.4").unwrap().is_ipv4());
}

#[test]
fn doubles_compare_by_their_bits() {
    let numbers = [
        0.0, -0.0, 0.5, -0.5, 1.0, 10.0, 10.000000000000002, 10_000.0, 100_000.0, 1e-320, -1e-320,
        f64::MAX, f64::MIN, f64::INFINITY, f64::NEG_INFINITY, f64::NAN,
    ];
    for a in numbers {
        for b in numbers {
            assert_eq!(less_than(a.to_bits(), b.to_bits()), a < b, "{a} < {b}");
            assert_eq!(at_most(a.to_bits(), b.to_bits()), a <= b, "{a} <= {b}");
            let (x, y) = (Binary64::new(a.to_bits(), "x"), Binary64::new(b.to_bits(), "y"));
            assert_eq!(x == y, a == b, "{a} == {b}");
        }
    }
    assert_eq!(f64::from_bits(HALF), 0.5);
    assert_eq!(f64::from_bits(TEN), 10.0);
    assert_eq!(f64::from_bits(TEN_THOUSAND), 10_000.0);
    assert_eq!(f64::from_bits(HUNDRED_THOUSAND), 100_000.0);
}

#[test]
fn ratios_are_shown_as_doubles_with_three_places_are() {
    let numbers = [
        0u32, 1, 2, 3, 5, 7, 16, 24, 25, 30, 59, 60, 61, 125, 240, 241, 1000, 1001, 2000, 2001, 24000, 30000,
        60000, 65535, 90000, 999_999, 1_000_001, 4_000_000_000, 4_294_967_295,
    ];
    for num in numbers {
        for den in numbers {
            if den > 0 {
                let expected = format!("{:.3}", num as f64 / den as f64);
                assert_eq!(three_places_string(num, den), expected, "{num}/{den}");
            }
        }
    }
    assert_eq!(three_places_string(30000, 1001), "29.970");
    assert_eq!(three_places_string(1, 16), "0.062");
    assert_eq!(three_places_string(3, 16), "0.188");
}

#[test]
fn frame_rate_limits_agree_with_division() {
    let numbers = [1u32, 2, 3, 5, 239, 240, 241, 1000, 1001, 4_294_967_294, 4_294_967_295];
    for num in numbers {
        for den in numbers {
            let rate = num as f64 / den as f64;
            let mut enc = video_encode("x264");
            enc.fps_num = Some(num);
            enc.fps_den = Some(den);
            let accepted = (0.5..=240.0).contains(&rate);
            assert_eq!(validate_video_encode(&enc, "out").is_ok(), accepted, "{num}/{den}");
        }
    }
}

#[test]
fn decimal_numbers_are_read_as_the_standard_library_reads_them() {
    for s in ["0", "7", "+7", "007", "65535", "65536", "-1", "", "+", "++1", "1 ", "a", "99999999999"] {
        let expected = s.parse::<u16>().ok().map(|n| n as u32);
        assert_eq!(parse_unsigned(s, 65535), expected, "{s}");
    }
}

#[test]
fn an_id_map_keeps_one_value_for_each_key() {
    let mut map: IdMap<u32> = IdMap::new();
    assert!(map.is_empty());
    assert_eq!(map.insert("a".to_string(), 1), None);
    assert_eq!(map.insert("b".to_string(), 2), None);
    assert_eq!(map.insert("a".to_string(), 3), Some(1));
    assert_eq!(map.len(), 2);
    assert_eq!(map.get("a"), Some(&3));
    assert_eq!(map.get("c"), None);
    assert!(map.contains_key("b"));
    let copy = map.clone();
    assert_eq!(copy.len(), 2);
    for i in 0..2 {
        assert_eq!(copy.get(copy.key_at(i)), Some(copy.value_at(i)));
        assert_eq!(map.get(copy.key_at(i)), Some(copy.value_at(i)));
    }
}

fn video_encode(codec: &str) -> VideoEncodeConfig {
    VideoEncodeConfig {
        codec: codec.to_string(),
        source_video_pid: None,
        width: None,
        height: None,
        fps_num: None,
        fps_den: None,
        bitrate_kbps: None,
        gop_size: None,
        preset: None,
        profile: None,
        chroma: None,
        bit_depth: None,
        rate_control: None,
        crf: None,
        max_bitrate_kbps: None,
        bframes: None,
        refs: None,
        level: None,
        tune: None,
        color_primaries: None,
        color_transfer: None,
        color_matrix: None,
        color_range: None,
        hw_decode: None,
    }
}
