use firewall_client::devices::{is_ipv6, CombinedDevice, Device, NdpDevice};
use firewall_client::reconcile::merge;

fn arp(mac: &str, ip: &str, hostname: &str, manufacturer: &str) -> Device {
    Device {
        mac: mac.to_string(),
        ip: ip.to_string(),
        intf: "em0".to_string(),
        expired: false,
        expires: 1200,
        permanent: false,
        device_type: "ethernet".to_string(),
        manufacturer: manufacturer.to_string(),
        hostname: hostname.to_string(),
        intf_description: "LAN".to_string(),
    }
}

fn ndp(mac: &str, ip: &str, manufacturer: &str) -> NdpDevice {
    NdpDevice {
        mac: mac.to_string(),
        ip: ip.to_string(),
        intf: "em1".to_string(),
        manufacturer: manufacturer.to_string(),
        intf_description: "WAN".to_string(),
    }
}

fn by_mac<'a>(devices: &'a [CombinedDevice], mac: &str) -> &'a CombinedDevice {
    let found: Vec<&CombinedDevice> = devices.iter().filter(|d| d.mac == mac).collect();
    assert_eq!(found.len(), 1, "exactly one record for {}", mac);
    found[0]
}

fn texts(items: &[&str]) -> Vec<String> {
    items.iter().map(|s| s.to_string()).collect()
}

#[test]
fn empty_feeds_give_no_devices() {
    assert!(merge(&[], &[]).is_empty());
}

#[test]
fn single_arp_row_opens_a_full_record() {
    let row = Device {
        mac: "aa:bb:cc:00:00:01".to_string(),
        ip: "192.168.1.10".to_string(),
        intf: "igb1".to_string(),
        expired: true,
        expires: -1,
        permanent: true,
        device_type: "vlan".to_string(),
        manufacturer: "Acme".to_string(),
        hostname: "printer".to_string(),
        intf_description: "Office".to_string(),
    };
    let devices = merge(&[row], &[]);
    assert_eq!(
        devices,
        vec![CombinedDevice {
            mac: "aa:bb:cc:00:00:01".to_string(),
            ipv4_addresses: texts(&["192.168.1.10"]),
            ipv6_addresses: vec![],
            intf: "igb1".to_string(),
            expired: Some(true),
            expires: Some(-1),
            permanent: Some(true),
            device_type: Some("vlan".to_string()),
            manufacturer: "Acme".to_string(),
            hostname: "printer".to_string(),
            intf_description: "Office".to_string(),
        }]
    );
}

#[test]
fn single_ndp_row_opens_a_record_without_lease_state() {
    let devices = merge(&[], &[ndp("aa:01", "fe80::1", "Acme")]);
    assert_eq!(
        devices,
        vec![CombinedDevice {
            mac: "aa:01".to_string(),
            ipv4_addresses: vec![],
            ipv6_addresses: texts(&["fe80::1"]),
            intf: "em1".to_string(),
            expired: None,
            expires: None,
            permanent: None,
            device_type: None,
            manufacturer: "Acme".to_string(),
            hostname: String::new(),
            intf_description: "WAN".to_string(),
        }]
    );
}

#[test]
fn one_record_per_distinct_mac() {
    let arp_rows = vec![
        arp("A", "10.0.0.1", "", ""),
        arp("B", "10.0.0.2", "", ""),
        arp("A", "10.0.0.3", "", ""),
    ];
    let ndp_rows = vec![ndp("B", "fe80::2", ""), ndp("C", "fe80::3", ""), ndp("C", "fe80::4", "")];
    let devices = merge(&arp_rows, &ndp_rows);
    let mut macs: Vec<String> = devices.iter().map(|d| d.mac.clone()).collect();
    macs.sort();
    assert_eq!(macs, texts(&["A", "B", "C"]));
}

#[test]
fn records_come_in_order_of_first_appearance() {
    let arp_rows = vec![arp("B", "10.0.0.2", "", ""), arp("A", "10.0.0.1", "", "")];
    let ndp_rows = vec![ndp("C", "fe80::3", ""), ndp("A", "fe80::1", "")];
    let macs: Vec<String> = merge(&arp_rows, &ndp_rows).into_iter().map(|d| d.mac).collect();
    assert_eq!(macs, texts(&["B", "A", "C"]));
}

#[test]
fn repeated_addresses_are_listed_once() {
    let arp_rows = vec![
        arp("A", "10.0.0.1", "", ""),
        arp("A", "10.0.0.1", "", ""),
        arp("A", "fe80::1", "", ""),
        arp("A", "10.0.0.2", "", ""),
    ];
    let ndp_rows = vec![ndp("A", "fe80::1", ""), ndp("A", "10.0.0.1", ""), ndp("A", "fe80::9", "")];
    let devices = merge(&arp_rows, &ndp_rows);
    let a = by_mac(&devices, "A");
    assert_eq!(a.ipv4_addresses, texts(&["10.0.0.1", "10.0.0.2"]));
    assert_eq!(a.ipv6_addresses, texts(&["fe80::1", "fe80::9"]));
}

#[test]
fn same_address_under_two_macs_is_kept_for_both() {
    let devices = merge(&[arp("A", "10.0.0.1", "", ""), arp("B", "10.0.0.1", "", "")], &[]);
    assert_eq!(by_mac(&devices, "A").ipv4_addresses, texts(&["10.0.0.1"]));
    assert_eq!(by_mac(&devices, "B").ipv4_addresses, texts(&["10.0.0.1"]));
}

#[test]
fn lease_fields_present_exactly_for_macs_in_arp() {
    let arp_rows = vec![arp("A", "10.0.0.1", "", "")];
    let ndp_rows = vec![ndp("A", "fe80::1", ""), ndp("N", "fe80::2", "")];
    let devices = merge(&arp_rows, &ndp_rows);
    let a = by_mac(&devices, "A");
    assert_eq!(a.expired, Some(false));
    assert_eq!(a.expires, Some(1200));
    assert_eq!(a.permanent, Some(false));
    assert_eq!(a.device_type, Some("ethernet".to_string()));
    let n = by_mac(&devices, "N");
    assert_eq!(n.expired, None);
    assert_eq!(n.expires, None);
    assert_eq!(n.permanent, None);
    assert_eq!(n.device_type, None);
}

#[test]
fn lease_fields_come_from_the_first_arp_row() {
    let mut first = arp("A", "10.0.0.1", "", "");
    first.expires = 7;
    first.expired = true;
    let mut second = arp("A", "10.0.0.2", "", "");
    second.expires = 99;
    second.device_type = "wifi".to_string();
    second.intf = "em9".to_string();
    let devices = merge(&[first, second], &[]);
    let a = by_mac(&devices, "A");
    assert_eq!(a.expires, Some(7));
    assert_eq!(a.expired, Some(true));
    assert_eq!(a.device_type, Some("ethernet".to_string()));
    assert_eq!(a.intf, "em0");
}

#[test]
fn addresses_are_classified_by_colon() {
    assert!(!is_ipv6("10.0.0.5"));
    assert!(is_ipv6("fe80::1"));
    assert!(is_ipv6("2001:db8::1"));
    assert!(!is_ipv6(""));
    assert!(is_ipv6(":"));
    let rows = vec![
        arp("A", "10.0.0.5", "", ""),
        arp("A", "fe80::1", "", ""),
        arp("A", "2001:db8::1", "", ""),
    ];
    let devices = merge(&rows, &[]);
    let a = by_mac(&devices, "A");
    assert_eq!(a.ipv4_addresses, texts(&["10.0.0.5"]));
    assert_eq!(a.ipv6_addresses, texts(&["fe80::1", "2001:db8::1"]));
}

#[test]
fn ndp_row_with_ipv4_text_goes_to_the_ipv4_list() {
    let devices = merge(&[], &[ndp("A", "192.168.0.9", "")]);
    let a = by_mac(&devices, "A");
    assert_eq!(a.ipv4_addresses, texts(&["192.168.0.9"]));
    assert!(a.ipv6_addresses.is_empty());
}

#[test]
fn hostname_backfill_fills_an_empty_hostname() {
    let devices = merge(&[arp("A", "10.0.0.1", "", ""), arp("A", "10.0.0.2", "host1", "")], &[]);
    assert_eq!(by_mac(&devices, "A").hostname, "host1");
}

#[test]
fn hostname_backfill_keeps_the_first_non_empty_hostname() {
    let devices =
        merge(&[arp("A", "10.0.0.1", "host1", ""), arp("A", "10.0.0.2", "host2", "")], &[]);
    assert_eq!(by_mac(&devices, "A").hostname, "host1");
}

#[test]
fn hostname_stays_empty_when_no_row_has_one() {
    let devices = merge(&[arp("A", "10.0.0.1", "", ""), arp("A", "10.0.0.2", "", "")], &[]);
    assert_eq!(by_mac(&devices, "A").hostname, "");
}

#[test]
fn manufacturer_from_arp_is_never_overwritten() {
    let devices = merge(&[arp("A", "10.0.0.1", "", "Acme")], &[ndp("A", "fe80::1", "Other")]);
    assert_eq!(by_mac(&devices, "A").manufacturer, "Acme");
}

#[test]
fn manufacturer_backfill_fills_an_empty_arp_manufacturer() {
    let devices = merge(
        &[arp("A", "10.0.0.1", "", "")],
        &[ndp("A", "fe80::1", ""), ndp("A", "fe80::2", "Globex"), ndp("A", "fe80::3", "Late")],
    );
    assert_eq!(by_mac(&devices, "A").manufacturer, "Globex");
}

#[test]
fn later_arp_rows_do_not_supply_a_manufacturer() {
    let devices = merge(&[arp("A", "10.0.0.1", "", ""), arp("A", "10.0.0.2", "", "Acme")], &[]);
    assert_eq!(by_mac(&devices, "A").manufacturer, "");
}

#[test]
fn ndp_only_device_takes_first_non_empty_manufacturer() {
    let devices = merge(&[], &[ndp("N", "fe80::1", ""), ndp("N", "fe80::2", "Initech")]);
    let n = by_mac(&devices, "N");
    assert_eq!(n.manufacturer, "Initech");
    assert_eq!(n.hostname, "");
    assert_eq!(n.intf, "em1");
    assert_eq!(n.intf_description, "WAN");
}

#[test]
fn ndp_rows_do_not_change_interface_of_an_arp_device() {
    let devices = merge(&[arp("A", "10.0.0.1", "h", "m")], &[ndp("A", "fe80::1", "x")]);
    let a = by_mac(&devices, "A");
    assert_eq!(a.intf, "em0");
    assert_eq!(a.intf_description, "LAN");
    assert_eq!(a.hostname, "h");
}

#[test]
fn macs_are_compared_as_given() {
    let devices = merge(&[arp("AA:BB", "10.0.0.1", "", "")], &[ndp("aa:bb", "fe80::1", "")]);
    assert_eq!(devices.len(), 2);
    assert_eq!(by_mac(&devices, "AA:BB").ipv4_addresses, texts(&["10.0.0.1"]));
    assert_eq!(by_mac(&devices, "aa:bb").ipv6_addresses, texts(&["fe80::1"]));
    assert_eq!(by_mac(&devices, "aa:bb").expired, None);
}

#[test]
fn merge_agrees_with_a_map_based_reconciliation() {
    // A small generator drives many feeds through both implementations.
    let mut state: u64 = 0x2545_F491_4F6C_DD1D;
    let mut next = move |bound: u64| -> u64 {
        state ^= state << 13;
        state ^= state >> 7;
        state ^= state << 17;
        state % bound
    };
    let names = ["", "alpha", "beta"];
    let ips = ["10.0.0.1", "10.0.0.2", "fe80::1", "fe80::2", "2001:db8::5"];
    for _ in 0..300 {
        let arp_rows: Vec<Device> = (0..next(7))
            .map(|_| {
                arp(
                    &format!("m{}", next(4)),
                    ips[next(5) as usize],
                    names[next(3) as usize],
                    names[next(3) as usize],
                )
            })
            .collect();
        let ndp_rows: Vec<NdpDevice> = (0..next(7))
            .map(|_| ndp(&format!("m{}", next(5)), ips[next(5) as usize], names[next(3) as usize]))
            .collect();

        let mut map: std::collections::HashMap<String, CombinedDevice> =
            std::collections::HashMap::new();
        for d in &arp_rows {
            if let Some(e) = map.get_mut(&d.mac) {
                let list =
                    if d.ip.contains(':') { &mut e.ipv6_addresses } else { &mut e.ipv4_addresses };
                if !list.contains(&d.ip) {
                    list.push(d.ip.clone());
                }
                if e.hostname.is_empty() && !d.hostname.is_empty() {
                    e.hostname = d.hostname.clone();
                }
            } else {
                let (mut v4, mut v6) = (vec![], vec![]);
                if d.ip.contains(':') {
                    v6.push(d.ip.clone());
                } else {
                    v4.push(d.ip.clone());
                }
                map.insert(
                    d.mac.clone(),
                    CombinedDevice {
                        mac: d.mac.clone(),
                        ipv4_addresses: v4,
                        ipv6_addresses: v6,
                        intf: d.intf.clone(),
                        expired: Some(d.expired),
                        expires: Some(d.expires),
                        permanent: Some(d.permanent),
                        device_type: Some(d.device_type.clone()),
                        manufacturer: d.manufacturer.clone(),
                        hostname: d.hostname.clone(),
                        intf_description: d.intf_description.clone(),
                    },
                );
            }
        }
        for d in &ndp_rows {
            if let Some(e) = map.get_mut(&d.mac) {
                let list =
                    if d.ip.contains(':') { &mut e.ipv6_addresses } else { &mut e.ipv4_addresses };
                if !list.contains(&d.ip) {
                    list.push(d.ip.clone());
                }
                if e.manufacturer.is_empty() && !d.manufacturer.is_empty() {
                    e.manufacturer = d.manufacturer.clone();
                }
            } else {
                let (mut v4, mut v6) = (vec![], vec![]);
                if d.ip.contains(':') {
                    v6.push(d.ip.clone());
                } else {
                    v4.push(d.ip.clone());
                }
                map.insert(
                    d.mac.clone(),
                    CombinedDevice {
                        mac: d.mac.clone(),
                        ipv4_addresses: v4,
                        ipv6_addresses: v6,
                        intf: d.intf.clone(),
                        expired: None,
                        expires: None,
                        permanent: None,
                        device_type: None,
                        manufacturer: d.manufacturer.clone(),
                        hostname: String::new(),
                        intf_description: d.intf_description.clone(),
                    },
                );
            }
        }

        let devices = merge(&arp_rows, &ndp_rows);
        assert_eq!(devices.len(), map.len());
        for device in &devices {
            assert_eq!(Some(device), map.get(&device.mac));
        }
    }
}
