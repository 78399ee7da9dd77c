//! Reconciliation of the ARP and neighbour-discovery tables into one record
//! per hardware address.
//!
//! The result is defined per address: [`combined`] says what the record of one
//! hardware address is, as a function of the rows that carry it, and
//! [`merged`] lists one such record for every address, in order of first
//! appearance (ARP rows first). [`merge`] computes exactly that list.
//! Hardware addresses are compared as given: no case folding or reformatting,
//! so two spellings of one address give two records.
//!
//! The same inventory can be read row by row: a row whose address has no
//! record yet opens one ([`opened_by_arp`], [`opened_by_ndp`]), any other row
//! updates the record of its address ([`after_arp`], [`after_ndp`]). The
//! lemmas `lemma_*_row_of_known` and `lemma_*_row_of_unknown` show that both
//! readings agree. What holds of every inventory is proved at the end of the
//! file.

use vstd::prelude::*;
use crate::devices::{
    is_ipv6,
    is_ipv6_text,
    CombinedDevice,
    CombinedDeviceView,
    Device,
    DeviceView,
    NdpDevice,
    NdpDeviceView,
};

verus! {

/// `s` with every repeated element dropped: each value is kept where it first
/// occurs.
pub open spec fn distinct<T>(s: Seq<T>) -> Seq<T>
    decreases s.len(),
{
    if s.len() == 0 {
        s
    } else {
        let earlier = distinct(s.drop_last());
        if earlier.contains(s.last()) {
            earlier
        } else {
            earlier.push(s.last())
        }
    }
}

/// The first string of `s` that is not empty, or the empty string if there is
/// none.
pub open spec fn first_nonempty(s: Seq<Seq<char>>) -> Seq<char>
    decreases s.len(),
{
    if s.len() == 0 {
        Seq::empty()
    } else {
        let earlier = first_nonempty(s.drop_last());
        if earlier.len() > 0 {
            earlier
        } else {
            s.last()
        }
    }
}

/// The hardware addresses of the ARP rows, row by row.
pub open spec fn arp_macs(arp: Seq<DeviceView>) -> Seq<Seq<char>> {
    Seq::new(arp.len(), |i: int| arp[i].mac)
}

/// The hardware addresses of the neighbour-discovery rows, row by row.
pub open spec fn ndp_macs(ndp: Seq<NdpDeviceView>) -> Seq<Seq<char>> {
    Seq::new(ndp.len(), |i: int| ndp[i].mac)
}

/// Every hardware address of either table in feed order: the ARP rows first,
/// then the neighbour-discovery rows.
pub open spec fn feed_macs(arp: Seq<DeviceView>, ndp: Seq<NdpDeviceView>) -> Seq<Seq<char>> {
    arp_macs(arp) + ndp_macs(ndp)
}

/// Whether some ARP row carries `mac`.
pub open spec fn in_arp(mac: Seq<char>, arp: Seq<DeviceView>) -> bool {
    exists|i: int| 0 <= i < arp.len() && (#[trigger] arp[i]).mac == mac
}

/// Whether some neighbour-discovery row carries `mac`.
pub open spec fn in_ndp(mac: Seq<char>, ndp: Seq<NdpDeviceView>) -> bool {
    exists|i: int| 0 <= i < ndp.len() && (#[trigger] ndp[i]).mac == mac
}

/// The ARP rows that carry `mac`, in table order.
pub open spec fn arp_for(mac: Seq<char>, arp: Seq<DeviceView>) -> Seq<DeviceView> {
    arp.filter(|r: DeviceView| r.mac == mac)
}

/// The neighbour-discovery rows that carry `mac`, in table order.
pub open spec fn ndp_for(mac: Seq<char>, ndp: Seq<NdpDeviceView>) -> Seq<NdpDeviceView> {
    ndp.filter(|r: NdpDeviceView| r.mac == mac)
}

/// The addresses of the ARP rows that carry `mac`.
pub open spec fn arp_ips(mac: Seq<char>, arp: Seq<DeviceView>) -> Seq<Seq<char>> {
    Seq::new(arp_for(mac, arp).len(), |i: int| arp_for(mac, arp)[i].ip)
}

/// The host names of the ARP rows that carry `mac`.
pub open spec fn arp_hostnames(mac: Seq<char>, arp: Seq<DeviceView>) -> Seq<Seq<char>> {
    Seq::new(arp_for(mac, arp).len(), |i: int| arp_for(mac, arp)[i].hostname)
}

/// The addresses of the neighbour-discovery rows that carry `mac`.
pub open spec fn ndp_ips(mac: Seq<char>, ndp: Seq<NdpDeviceView>) -> Seq<Seq<char>> {
    Seq::new(ndp_for(mac, ndp).len(), |i: int| ndp_for(mac, ndp)[i].ip)
}

/// The manufacturers of the neighbour-discovery rows that carry `mac`.
pub open spec fn ndp_manufacturers(mac: Seq<char>, ndp: Seq<NdpDeviceView>) -> Seq<Seq<char>> {
    Seq::new(ndp_for(mac, ndp).len(), |i: int| ndp_for(mac, ndp)[i].manufacturer)
}

/// The addresses among `ips` of one family: IPv6 if `v6`, IPv4 otherwise.
pub open spec fn family(v6: bool, ips: Seq<Seq<char>>) -> Seq<Seq<char>> {
    ips.filter(|ip: Seq<char>| is_ipv6_text(ip) == v6)
}

/// The addresses of one family recorded for `mac`: each address once, in the
/// order in which the feeds first show it.
pub open spec fn addresses(
    mac: Seq<char>,
    v6: bool,
    arp: Seq<DeviceView>,
    ndp: Seq<NdpDeviceView>,
) -> Seq<Seq<char>> {
    distinct(family(v6, arp_ips(mac, arp) + ndp_ips(mac, ndp)))
}

/// The record of the device with hardware address `mac`.
///
/// * Lease state and device type come from the first ARP row of that address
///   and are absent when no ARP row carries it.
/// * Interface and interface description come from the first row of that
///   address, an ARP row if there is one.
/// * The host name is the first non-empty host name among its ARP rows.
/// * The manufacturer is that of the first ARP row; where that is empty or
///   missing, the first non-empty manufacturer among its neighbour-discovery
///   rows.
pub open spec fn combined(
    mac: Seq<char>,
    arp: Seq<DeviceView>,
    ndp: Seq<NdpDeviceView>,
) -> CombinedDeviceView {
    let a = arp_for(mac, arp);
    let n = ndp_for(mac, ndp);
    CombinedDeviceView {
        mac,
        ipv4_addresses: addresses(mac, false, arp, ndp),
        ipv6_addresses: addresses(mac, true, arp, ndp),
        intf: if a.len() > 0 {
            a[0].intf
        } else {
            n[0].intf
        },
        expired: if a.len() > 0 {
            Some(a[0].expired)
        } else {
            None
        },
        expires: if a.len() > 0 {
            Some(a[0].expires)
        } else {
            None
        },
        permanent: if a.len() > 0 {
            Some(a[0].permanent)
        } else {
            None
        },
        device_type: if a.len() > 0 {
            Some(a[0].device_type)
        } else {
            None
        },
        manufacturer: if a.len() > 0 && a[0].manufacturer.len() > 0 {
            a[0].manufacturer
        } else {
            first_nonempty(ndp_manufacturers(mac, ndp))
        },
        hostname: first_nonempty(arp_hostnames(mac, arp)),
        intf_description: if a.len() > 0 {
            a[0].intf_description
        } else {
            n[0].intf_description
        },
    }
}

/// The reconciled inventory: one record for each hardware address of either
/// table, in order of first appearance.
pub open spec fn merged(arp: Seq<DeviceView>, ndp: Seq<NdpDeviceView>) -> Seq<CombinedDeviceView> {
    let macs = distinct(feed_macs(arp, ndp));
    Seq::new(macs.len(), |k: int| combined(macs[k], arp, ndp))
}

/// `list` with `item` appended unless it is already there.
pub open spec fn with_item(list: Seq<Seq<char>>, item: Seq<char>) -> Seq<Seq<char>> {
    if list.contains(item) {
        list
    } else {
        list.push(item)
    }
}

/// `device` after one more address was seen for it.
pub open spec fn with_address(device: CombinedDeviceView, ip: Seq<char>) -> CombinedDeviceView {
    if is_ipv6_text(ip) {
        CombinedDeviceView { ipv6_addresses: with_item(device.ipv6_addresses, ip), ..device }
    } else {
        CombinedDeviceView { ipv4_addresses: with_item(device.ipv4_addresses, ip), ..device }
    }
}

/// The record that a first ARP row opens.
pub open spec fn opened_by_arp(row: DeviceView) -> CombinedDeviceView {
    CombinedDeviceView {
        mac: row.mac,
        ipv4_addresses: if is_ipv6_text(row.ip) {
            Seq::empty()
        } else {
            seq![row.ip]
        },
        ipv6_addresses: if is_ipv6_text(row.ip) {
            seq![row.ip]
        } else {
            Seq::empty()
        },
        intf: row.intf,
        expired: Some(row.expired),
        expires: Some(row.expires),
        permanent: Some(row.permanent),
        device_type: Some(row.device_type),
        manufacturer: row.manufacturer,
        hostname: row.hostname,
        intf_description: row.intf_description,
    }
}

/// The record that a first neighbour-discovery row opens, for an address that
/// no ARP row carries.
pub open spec fn opened_by_ndp(row: NdpDeviceView) -> CombinedDeviceView {
    CombinedDeviceView {
        mac: row.mac,
        ipv4_addresses: if is_ipv6_text(row.ip) {
            Seq::empty()
        } else {
            seq![row.ip]
        },
        ipv6_addresses: if is_ipv6_text(row.ip) {
            seq![row.ip]
        } else {
            Seq::empty()
        },
        intf: row.intf,
        expired: None,
        expires: None,
        permanent: None,
        device_type: None,
        manufacturer: row.manufacturer,
        hostname: Seq::empty(),
        intf_description: row.intf_description,
    }
}

/// An existing record after a further ARP row of its address.
pub open spec fn after_arp(device: CombinedDeviceView, row: DeviceView) -> CombinedDeviceView {
    CombinedDeviceView {
        hostname: if device.hostname.len() == 0 {
            row.hostname
        } else {
            device.hostname
        },
        ..with_address(device, row.ip)
    }
}

/// An existing record after a further neighbour-discovery row of its address.
pub open spec fn after_ndp(device: CombinedDeviceView, row: NdpDeviceView) -> CombinedDeviceView {
    CombinedDeviceView {
        manufacturer: if device.manufacturer.len() == 0 {
            row.manufacturer
        } else {
            device.manufacturer
        },
        ..with_address(device, row.ip)
    }
}

// ---------------------------------------------------------------------------
// How the definitions move when one row is appended.
// ---------------------------------------------------------------------------

/// How `distinct` grows by one element.
proof fn lemma_distinct_push<T>(s: Seq<T>, x: T)
    ensures
        distinct(s.push(x)) == if distinct(s).contains(x) {
            distinct(s)
        } else {
            distinct(s).push(x)
        },
{
    assert(s.push(x).drop_last() =~= s);
}

/// `distinct` keeps every value and repeats none.
pub proof fn lemma_distinct<T>(s: Seq<T>)
    ensures
        distinct(s).no_duplicates(),
        forall|x: T| distinct(s).contains(x) <==> s.contains(x),
    decreases s.len(),
{
    if s.len() > 0 {
        let front = s.drop_last();
        lemma_distinct(front);
        assert(s =~= front.push(s.last()));
        assert forall|x: T| distinct(s).contains(x) <==> s.contains(x) by {
            vstd::seq_lib::lemma_seq_contains_after_push(front, s.last(), x);
            vstd::seq_lib::lemma_seq_contains_after_push(distinct(front), s.last(), x);
        }
    }
}

/// How `first_nonempty` grows by one string.
proof fn lemma_first_nonempty_push(s: Seq<Seq<char>>, x: Seq<char>)
    ensures
        first_nonempty(s.push(x)) == if first_nonempty(s).len() > 0 {
            first_nonempty(s)
        } else {
            x
        },
{
    assert(s.push(x).drop_last() =~= s);
}

/// One more ARP row extends what is known of its own address and of no
/// other.
proof fn lemma_arp_for_push(mac: Seq<char>, arp: Seq<DeviceView>, row: DeviceView)
    ensures
        arp_for(mac, arp.push(row)) == if row.mac == mac {
            arp_for(mac, arp).push(row)
        } else {
            arp_for(mac, arp)
        },
        arp_ips(mac, arp.push(row)) == if row.mac == mac {
            arp_ips(mac, arp).push(row.ip)
        } else {
            arp_ips(mac, arp)
        },
        arp_hostnames(mac, arp.push(row)) == if row.mac == mac {
            arp_hostnames(mac, arp).push(row.hostname)
        } else {
            arp_hostnames(mac, arp)
        },
{
    arp.lemma_filter_push(row, |r: DeviceView| r.mac == mac);
    if row.mac == mac {
        assert(arp_ips(mac, arp.push(row)) =~= arp_ips(mac, arp).push(row.ip));
        assert(arp_hostnames(mac, arp.push(row)) =~= arp_hostnames(mac, arp).push(row.hostname));
    }
}

/// One more neighbour-discovery row extends what is known of its own address
/// and of no other.
proof fn lemma_ndp_for_push(mac: Seq<char>, ndp: Seq<NdpDeviceView>, row: NdpDeviceView)
    ensures
        ndp_for(mac, ndp.push(row)) == if row.mac == mac {
            ndp_for(mac, ndp).push(row)
        } else {
            ndp_for(mac, ndp)
        },
        ndp_ips(mac, ndp.push(row)) == if row.mac == mac {
            ndp_ips(mac, ndp).push(row.ip)
        } else {
            ndp_ips(mac, ndp)
        },
        ndp_manufacturers(mac, ndp.push(row)) == if row.mac == mac {
            ndp_manufacturers(mac, ndp).push(row.manufacturer)
        } else {
            ndp_manufacturers(mac, ndp)
        },
{
    ndp.lemma_filter_push(row, |r: NdpDeviceView| r.mac == mac);
    if row.mac == mac {
        assert(ndp_ips(mac, ndp.push(row)) =~= ndp_ips(mac, ndp).push(row.ip));
        assert(ndp_manufacturers(mac, ndp.push(row)) =~= ndp_manufacturers(mac, ndp).push(
            row.manufacturer,
        ));
    }
}

/// An empty table holds nothing for any address.
proof fn lemma_nothing_for_empty(mac: Seq<char>)
    ensures
        arp_for(mac, Seq::empty()) == Seq::<DeviceView>::empty(),
        ndp_for(mac, Seq::empty()) == Seq::<NdpDeviceView>::empty(),
        arp_ips(mac, Seq::empty()) == Seq::<Seq<char>>::empty(),
        ndp_ips(mac, Seq::empty()) == Seq::<Seq<char>>::empty(),
        arp_hostnames(mac, Seq::empty()) == Seq::<Seq<char>>::empty(),
        ndp_manufacturers(mac, Seq::empty()) == Seq::<Seq<char>>::empty(),
{
    reveal(Seq::filter);
    assert(arp_for(mac, Seq::empty()) =~= Seq::<DeviceView>::empty());
    assert(ndp_for(mac, Seq::empty()) =~= Seq::<NdpDeviceView>::empty());
    assert(arp_ips(mac, Seq::empty()) =~= Seq::<Seq<char>>::empty());
    assert(ndp_ips(mac, Seq::empty()) =~= Seq::<Seq<char>>::empty());
    assert(arp_hostnames(mac, Seq::empty()) =~= Seq::<Seq<char>>::empty());
    assert(ndp_manufacturers(mac, Seq::empty()) =~= Seq::<Seq<char>>::empty());
}

/// A hardware address has ARP rows exactly when it occurs among the ARP
/// addresses.
pub proof fn lemma_arp_rows_exist(mac: Seq<char>, arp: Seq<DeviceView>)
    ensures
        arp_for(mac, arp).len() > 0 <==> arp_macs(arp).contains(mac),
    decreases arp.len(),
{
    if arp.len() == 0 {
        lemma_nothing_for_empty(mac);
    } else {
        let front = arp.drop_last();
        let row = arp.last();
        assert(arp =~= front.push(row));
        lemma_arp_rows_exist(mac, front);
        lemma_arp_for_push(mac, front, row);
        assert(arp_macs(arp) =~= arp_macs(front).push(row.mac));
        vstd::seq_lib::lemma_seq_contains_after_push(arp_macs(front), row.mac, mac);
    }
}

/// A hardware address has neighbour-discovery rows exactly when it occurs
/// among the neighbour-discovery addresses.
pub proof fn lemma_ndp_rows_exist(mac: Seq<char>, ndp: Seq<NdpDeviceView>)
    ensures
        ndp_for(mac, ndp).len() > 0 <==> ndp_macs(ndp).contains(mac),
    decreases ndp.len(),
{
    if ndp.len() == 0 {
        lemma_nothing_for_empty(mac);
    } else {
        let front = ndp.drop_last();
        let row = ndp.last();
        assert(ndp =~= front.push(row));
        lemma_ndp_rows_exist(mac, front);
        lemma_ndp_for_push(mac, front, row);
        assert(ndp_macs(ndp) =~= ndp_macs(front).push(row.mac));
        vstd::seq_lib::lemma_seq_contains_after_push(ndp_macs(front), row.mac, mac);
    }
}

/// One more ARP row of an address adds its address to the list of its
/// family, unless it is there already.
proof fn lemma_addresses_push_arp(
    mac: Seq<char>,
    v6: bool,
    arp: Seq<DeviceView>,
    row: DeviceView,
)
    requires
        row.mac == mac,
    ensures
        addresses(mac, v6, arp.push(row), Seq::empty()) == if is_ipv6_text(row.ip) == v6 {
            with_item(addresses(mac, v6, arp, Seq::empty()), row.ip)
        } else {
            addresses(mac, v6, arp, Seq::empty())
        },
{
    lemma_arp_for_push(mac, arp, row);
    lemma_nothing_for_empty(mac);
    let before = arp_ips(mac, arp) + ndp_ips(mac, Seq::empty());
    assert(arp_ips(mac, arp.push(row)) + ndp_ips(mac, Seq::empty()) =~= before.push(row.ip));
    before.lemma_filter_push(row.ip, |ip: Seq<char>| is_ipv6_text(ip) == v6);
    lemma_distinct_push(family(v6, before), row.ip);
}

/// One more neighbour-discovery row of an address adds its address to the
/// list of its family, unless it is there already.
proof fn lemma_addresses_push_ndp(
    mac: Seq<char>,
    v6: bool,
    arp: Seq<DeviceView>,
    ndp: Seq<NdpDeviceView>,
    row: NdpDeviceView,
)
    requires
        row.mac == mac,
    ensures
        addresses(mac, v6, arp, ndp.push(row)) == if is_ipv6_text(row.ip) == v6 {
            with_item(addresses(mac, v6, arp, ndp), row.ip)
        } else {
            addresses(mac, v6, arp, ndp)
        },
{
    lemma_ndp_for_push(mac, ndp, row);
    let before = arp_ips(mac, arp) + ndp_ips(mac, ndp);
    assert(arp_ips(mac, arp) + ndp_ips(mac, ndp.push(row)) =~= before.push(row.ip));
    before.lemma_filter_push(row.ip, |ip: Seq<char>| is_ipv6_text(ip) == v6);
    lemma_distinct_push(family(v6, before), row.ip);
}

/// A row of another hardware address leaves a record as it is.
proof fn lemma_other_arp_row(
    mac: Seq<char>,
    arp: Seq<DeviceView>,
    ndp: Seq<NdpDeviceView>,
    row: DeviceView,
)
    requires
        row.mac != mac,
    ensures
        combined(mac, arp.push(row), ndp) == combined(mac, arp, ndp),
{
    lemma_arp_for_push(mac, arp, row);
}

/// A neighbour-discovery row of another hardware address leaves a record as
/// it is.
proof fn lemma_other_ndp_row(
    mac: Seq<char>,
    arp: Seq<DeviceView>,
    ndp: Seq<NdpDeviceView>,
    row: NdpDeviceView,
)
    requires
        row.mac != mac,
    ensures
        combined(mac, arp, ndp.push(row)) == combined(mac, arp, ndp),
{
    lemma_ndp_for_push(mac, ndp, row);
}

/// The first ARP row of an address opens its record.
proof fn lemma_first_arp_row(arp: Seq<DeviceView>, row: DeviceView)
    requires
        arp_for(row.mac, arp).len() == 0,
    ensures
        combined(row.mac, arp.push(row), Seq::empty()) == opened_by_arp(row),
{
    let mac = row.mac;
    lemma_arp_for_push(mac, arp, row);
    lemma_nothing_for_empty(mac);
    lemma_addresses_push_arp(mac, false, arp, row);
    lemma_addresses_push_arp(mac, true, arp, row);
    assert(arp_for(mac, arp) =~= Seq::<DeviceView>::empty());
    assert(arp_ips(mac, arp) =~= Seq::<Seq<char>>::empty());
    assert(arp_hostnames(mac, arp) =~= Seq::<Seq<char>>::empty());
    reveal(Seq::filter);
    assert(arp_ips(mac, arp) + ndp_ips(mac, Seq::empty()) =~= Seq::<Seq<char>>::empty());
    assert(addresses(mac, false, arp, Seq::empty()) =~= Seq::<Seq<char>>::empty());
    assert(addresses(mac, true, arp, Seq::empty()) =~= Seq::<Seq<char>>::empty());
    lemma_first_nonempty_push(Seq::empty(), row.hostname);
    let got = combined(mac, arp.push(row), Seq::empty());
    let want = opened_by_arp(row);
    assert(got.ipv4_addresses =~= want.ipv4_addresses);
    assert(got.ipv6_addresses =~= want.ipv6_addresses);
    assert(got.hostname =~= want.hostname);
    assert(got.manufacturer =~= want.manufacturer);
}

/// A further ARP row of an address updates its record.
proof fn lemma_further_arp_row(arp: Seq<DeviceView>, row: DeviceView)
    requires
        arp_for(row.mac, arp).len() > 0,
    ensures
        combined(row.mac, arp.push(row), Seq::empty()) == after_arp(
            combined(row.mac, arp, Seq::empty()),
            row,
        ),
{
    let mac = row.mac;
    lemma_arp_for_push(mac, arp, row);
    lemma_addresses_push_arp(mac, false, arp, row);
    lemma_addresses_push_arp(mac, true, arp, row);
    lemma_first_nonempty_push(arp_hostnames(mac, arp), row.hostname);
}

/// The first row of an address that no ARP row carries opens its record.
proof fn lemma_first_ndp_row(arp: Seq<DeviceView>, ndp: Seq<NdpDeviceView>, row: NdpDeviceView)
    requires
        arp_for(row.mac, arp).len() == 0,
        ndp_for(row.mac, ndp).len() == 0,
    ensures
        combined(row.mac, arp, ndp.push(row)) == opened_by_ndp(row),
{
    let mac = row.mac;
    lemma_ndp_for_push(mac, ndp, row);
    lemma_addresses_push_ndp(mac, false, arp, ndp, row);
    lemma_addresses_push_ndp(mac, true, arp, ndp, row);
    assert(arp_for(mac, arp) =~= Seq::<DeviceView>::empty());
    assert(ndp_for(mac, ndp) =~= Seq::<NdpDeviceView>::empty());
    assert(arp_ips(mac, arp) =~= Seq::<Seq<char>>::empty());
    assert(ndp_ips(mac, ndp) =~= Seq::<Seq<char>>::empty());
    assert(arp_hostnames(mac, arp) =~= Seq::<Seq<char>>::empty());
    assert(ndp_manufacturers(mac, ndp) =~= Seq::<Seq<char>>::empty());
    reveal(Seq::filter);
    assert(arp_ips(mac, arp) + ndp_ips(mac, ndp) =~= Seq::<Seq<char>>::empty());
    assert(addresses(mac, false, arp, ndp) =~= Seq::<Seq<char>>::empty());
    assert(addresses(mac, true, arp, ndp) =~= Seq::<Seq<char>>::empty());
    lemma_first_nonempty_push(Seq::empty(), row.manufacturer);
    let got = combined(mac, arp, ndp.push(row));
    let want = opened_by_ndp(row);
    assert(got.ipv4_addresses =~= want.ipv4_addresses);
    assert(got.ipv6_addresses =~= want.ipv6_addresses);
    assert(got.hostname =~= want.hostname);
    assert(got.manufacturer =~= want.manufacturer);
}

/// A neighbour-discovery row of a known address updates its record.
proof fn lemma_further_ndp_row(arp: Seq<DeviceView>, ndp: Seq<NdpDeviceView>, row: NdpDeviceView)
    requires
        arp_for(row.mac, arp).len() > 0 || ndp_for(row.mac, ndp).len() > 0,
    ensures
        combined(row.mac, arp, ndp.push(row)) == after_ndp(combined(row.mac, arp, ndp), row),
{
    let mac = row.mac;
    lemma_ndp_for_push(mac, ndp, row);
    lemma_addresses_push_ndp(mac, false, arp, ndp, row);
    lemma_addresses_push_ndp(mac, true, arp, ndp, row);
    lemma_first_nonempty_push(ndp_manufacturers(mac, ndp), row.manufacturer);
}

/// When the next ARP row carries the address of record `at`, only that record
/// changes.
pub proof fn lemma_arp_row_of_known(arp: Seq<DeviceView>, row: DeviceView, at: int)
    requires
        0 <= at < merged(arp, Seq::empty()).len(),
        merged(arp, Seq::empty())[at].mac == row.mac,
    ensures
        merged(arp.push(row), Seq::empty()) == merged(arp, Seq::empty()).update(
            at,
            after_arp(merged(arp, Seq::empty())[at], row),
        ),
{
    let none = Seq::<NdpDeviceView>::empty();
    let feed = feed_macs(arp, none);
    let macs = distinct(feed);
    assert(feed_macs(arp.push(row), none) =~= feed.push(row.mac));
    assert(feed =~= arp_macs(arp));
    lemma_distinct(feed);
    lemma_distinct_push(feed, row.mac);
    assert(macs[at] == row.mac);
    assert(macs.contains(row.mac));
    lemma_arp_rows_exist(row.mac, arp);
    lemma_further_arp_row(arp, row);
    let next = merged(arp.push(row), none);
    let want = merged(arp, none).update(at, after_arp(merged(arp, none)[at], row));
    assert forall|k: int| 0 <= k < macs.len() implies next[k] == want[k] by {
        if k != at {
            lemma_other_arp_row(macs[k], arp, none, row);
        }
    }
    assert(next =~= want);
}

/// When no record carries the address of the next ARP row, the row opens a
/// new record at the end.
pub proof fn lemma_arp_row_of_unknown(arp: Seq<DeviceView>, row: DeviceView)
    requires
        forall|k: int|
            0 <= k < merged(arp, Seq::empty()).len() ==> merged(arp, Seq::empty())[k].mac
                != row.mac,
    ensures
        merged(arp.push(row), Seq::empty()) == merged(arp, Seq::empty()).push(opened_by_arp(row)),
{
    let none = Seq::<NdpDeviceView>::empty();
    let feed = feed_macs(arp, none);
    let macs = distinct(feed);
    assert(feed_macs(arp.push(row), none) =~= feed.push(row.mac));
    assert(feed =~= arp_macs(arp));
    lemma_distinct(feed);
    lemma_distinct_push(feed, row.mac);
    if macs.contains(row.mac) {
        let k = choose|k: int| 0 <= k < macs.len() && macs[k] == row.mac;
        assert(merged(arp, none)[k].mac == row.mac);
    }
    lemma_arp_rows_exist(row.mac, arp);
    lemma_first_arp_row(arp, row);
    let next = merged(arp.push(row), none);
    let want = merged(arp, none).push(opened_by_arp(row));
    assert forall|k: int| 0 <= k < macs.len() implies next[k] == want[k] by {
        assert(merged(arp, none)[k].mac == macs[k]);
        lemma_other_arp_row(macs[k], arp, none, row);
    }
    assert(next =~= want);
}

/// When the next neighbour-discovery row carries the address of record `at`,
/// only that record changes.
pub proof fn lemma_ndp_row_of_known(
    arp: Seq<DeviceView>,
    ndp: Seq<NdpDeviceView>,
    row: NdpDeviceView,
    at: int,
)
    requires
        0 <= at < merged(arp, ndp).len(),
        merged(arp, ndp)[at].mac == row.mac,
    ensures
        merged(arp, ndp.push(row)) == merged(arp, ndp).update(
            at,
            after_ndp(merged(arp, ndp)[at], row),
        ),
{
    let feed = feed_macs(arp, ndp);
    let macs = distinct(feed);
    assert(feed_macs(arp, ndp.push(row)) =~= feed.push(row.mac));
    lemma_distinct(feed);
    lemma_distinct_push(feed, row.mac);
    assert(macs[at] == row.mac);
    assert(macs.contains(row.mac));
    vstd::seq_lib::lemma_seq_concat_contains_all_elements(arp_macs(arp), ndp_macs(ndp), row.mac);
    lemma_arp_rows_exist(row.mac, arp);
    lemma_ndp_rows_exist(row.mac, ndp);
    lemma_further_ndp_row(arp, ndp, row);
    let next = merged(arp, ndp.push(row));
    let want = merged(arp, ndp).update(at, after_ndp(merged(arp, ndp)[at], row));
    assert forall|k: int| 0 <= k < macs.len() implies next[k] == want[k] by {
        if k != at {
            lemma_other_ndp_row(macs[k], arp, ndp, row);
        }
    }
    assert(next =~= want);
}

/// When no record carries the address of the next neighbour-discovery row,
/// the row opens a new record at the end.
pub proof fn lemma_ndp_row_of_unknown(
    arp: Seq<DeviceView>,
    ndp: Seq<NdpDeviceView>,
    row: NdpDeviceView,
)
    requires
        forall|k: int| 0 <= k < merged(arp, ndp).len() ==> merged(arp, ndp)[k].mac != row.mac,
    ensures
        merged(arp, ndp.push(row)) == merged(arp, ndp).push(opened_by_ndp(row)),
{
    let feed = feed_macs(arp, ndp);
    let macs = distinct(feed);
    assert(feed_macs(arp, ndp.push(row)) =~= feed.push(row.mac));
    lemma_distinct(feed);
    lemma_distinct_push(feed, row.mac);
    if macs.contains(row.mac) {
        let k = choose|k: int| 0 <= k < macs.len() && macs[k] == row.mac;
        assert(merged(arp, ndp)[k].mac == row.mac);
    }
    vstd::seq_lib::lemma_seq_concat_contains_all_elements(arp_macs(arp), ndp_macs(ndp), row.mac);
    lemma_arp_rows_exist(row.mac, arp);
    lemma_ndp_rows_exist(row.mac, ndp);
    lemma_first_ndp_row(arp, ndp, row);
    let next = merged(arp, ndp.push(row));
    let want = merged(arp, ndp).push(opened_by_ndp(row));
    assert forall|k: int| 0 <= k < macs.len() implies next[k] == want[k] by {
        assert(merged(arp, ndp)[k].mac == macs[k]);
        lemma_other_ndp_row(macs[k], arp, ndp, row);
    }
    assert(next =~= want);
}

// ---------------------------------------------------------------------------
// The executable engine.
// ---------------------------------------------------------------------------

/// Whether `list` already holds `item`.
fn holds(list: &Vec<String>, item: &String) -> (found: bool)
    ensures
        found == list.deep_view().contains(item@),
{
    let mut i: usize = 0;
    while i < list.len()
        invariant
            i <= list.len(),
            forall|k: int| 0 <= k < i ==> list.deep_view()[k] != item@,
        decreases list.len() - i,
    {
        if list[i] == *item {
            assert(list.deep_view()[i as int] == item@);
            return true;
        }
        i += 1;
    }
    false
}

/// Records `ip` in the list of its family unless it is already there.
fn note_address(device: &mut CombinedDevice, ip: &String)
    ensures
        final(device)@ == with_address(old(device)@, ip@),
{
    if is_ipv6(ip.as_str()) {
        if !holds(&device.ipv6_addresses, ip) {
            device.ipv6_addresses.push(ip.clone());
            assert(device.ipv6_addresses.deep_view() =~= old(device).ipv6_addresses.deep_view().push(
                ip@,
            ));
        }
    } else {
        if !holds(&device.ipv4_addresses, ip) {
            device.ipv4_addresses.push(ip.clone());
            assert(device.ipv4_addresses.deep_view() =~= old(device).ipv4_addresses.deep_view().push(
                ip@,
            ));
        }
    }
}

/// The index of the record with hardware address `mac`, if there is one.
fn position_of(devices: &Vec<CombinedDevice>, mac: &String) -> (found: Option<usize>)
    ensures
        match found {
            Some(at) => at < devices.len() && devices[at as int].mac@ == mac@,
            None => forall|k: int| 0 <= k < devices.len() ==> devices[k].mac@ != mac@,
        },
{
    let mut i: usize = 0;
    while i < devices.len()
        invariant
            i <= devices.len(),
            forall|k: int| 0 <= k < i ==> devices[k].mac@ != mac@,
        decreases devices.len() - i,
    {
        if devices[i].mac == *mac {
            return Some(i);
        }
        i += 1;
    }
    None
}

/// The one-address lists that a first row starts with: `(ipv4, ipv6)`.
fn first_address(ip: &String) -> (lists: (Vec<String>, Vec<String>))
    ensures
        lists.0.deep_view() == if is_ipv6_text(ip@) {
            Seq::<Seq<char>>::empty()
        } else {
            seq![ip@]
        },
        lists.1.deep_view() == if is_ipv6_text(ip@) {
            seq![ip@]
        } else {
            Seq::<Seq<char>>::empty()
        },
{
    let mut ipv4_addresses: Vec<String> = Vec::new();
    let mut ipv6_addresses: Vec<String> = Vec::new();
    if is_ipv6(ip.as_str()) {
        ipv6_addresses.push(ip.clone());
        assert(ipv6_addresses.deep_view() =~= seq![ip@]);
        assert(ipv4_addresses.deep_view() =~= Seq::<Seq<char>>::empty());
    } else {
        ipv4_addresses.push(ip.clone());
        assert(ipv4_addresses.deep_view() =~= seq![ip@]);
        assert(ipv6_addresses.deep_view() =~= Seq::<Seq<char>>::empty());
    }
    (ipv4_addresses, ipv6_addresses)
}

/// Opens the record of an address with its first ARP row.
fn open_from_arp(row: &Device) -> (device: CombinedDevice)
    ensures
        device@ == opened_by_arp(row@),
{
    let (ipv4_addresses, ipv6_addresses) = first_address(&row.ip);
    CombinedDevice {
        mac: row.mac.clone(),
        ipv4_addresses,
        ipv6_addresses,
        intf: row.intf.clone(),
        expired: Some(row.expired),
        expires: Some(row.expires),
        permanent: Some(row.permanent),
        device_type: Some(row.device_type.clone()),
        manufacturer: row.manufacturer.clone(),
        hostname: row.hostname.clone(),
        intf_description: row.intf_description.clone(),
    }
}

/// Opens the record of an address that no ARP row carries with its first
/// neighbour-discovery row.
fn open_from_ndp(row: &NdpDevice) -> (device: CombinedDevice)
    ensures
        device@ == opened_by_ndp(row@),
{
    let (ipv4_addresses, ipv6_addresses) = first_address(&row.ip);
    CombinedDevice {
        mac: row.mac.clone(),
        ipv4_addresses,
        ipv6_addresses,
        intf: row.intf.clone(),
        expired: None,
        expires: None,
        permanent: None,
        device_type: None,
        manufacturer: row.manufacturer.clone(),
        hostname: String::new(),
        intf_description: row.intf_description.clone(),
    }
}

/// Takes a further ARP row into the record of its address.
fn absorb_arp(device: &mut CombinedDevice, row: &Device)
    ensures
        final(device)@ == after_arp(old(device)@, row@),
{
    note_address(device, &row.ip);
    if device.hostname.as_str().is_empty() && !row.hostname.as_str().is_empty() {
        device.hostname = row.hostname.clone();
    }
    assert(device@.hostname =~= after_arp(old(device)@, row@).hostname);
}

/// Takes a neighbour-discovery row into the record of its address.
fn absorb_ndp(device: &mut CombinedDevice, row: &NdpDevice)
    ensures
        final(device)@ == after_ndp(old(device)@, row@),
{
    note_address(device, &row.ip);
    if device.manufacturer.as_str().is_empty() && !row.manufacturer.as_str().is_empty() {
        device.manufacturer = row.manufacturer.clone();
    }
    assert(device@.manufacturer =~= after_ndp(old(device)@, row@).manufacturer);
}

/// Merges the two tables into one record per hardware address.
///
/// The ARP rows are taken first, in order, then the neighbour-discovery rows.
/// The result is [`merged`]: the records come in order of first appearance of
/// their address, and each is what [`combined`] says of its address.
pub fn merge(arp: &[Device], ndp: &[NdpDevice]) -> (devices: Vec<CombinedDevice>)
    ensures
        devices.deep_view() == merged(arp.deep_view(), ndp.deep_view()),
{
    let mut devices: Vec<CombinedDevice> = Vec::new();
    let ghost none = Seq::<NdpDeviceView>::empty();
    proof {
        assert(feed_macs(Seq::empty(), none) =~= Seq::<Seq<char>>::empty());
        assert(arp.deep_view().take(0) =~= Seq::<DeviceView>::empty());
        assert(devices.deep_view() =~= merged(arp.deep_view().take(0), none));
    }
    let mut i: usize = 0;
    while i < arp.len()
        invariant
            i <= arp.len(),
            none == Seq::<NdpDeviceView>::empty(),
            devices.deep_view() == merged(arp.deep_view().take(i as int), none),
        decreases arp.len() - i,
    {
        let row = &arp[i];
        let ghost seen = arp.deep_view().take(i as int);
        let ghost before = devices.deep_view();
        proof {
            assert(arp.deep_view().take(i + 1) =~= seen.push(row@));
        }
        match position_of(&devices, &row.mac) {
            Some(at) => {
                absorb_arp(&mut devices[at], row);
                proof {
                    lemma_arp_row_of_known(seen, row@, at as int);
                    assert(devices.deep_view() =~= before.update(
                        at as int,
                        after_arp(before[at as int], row@),
                    ));
                }
            },
            None => {
                devices.push(open_from_arp(row));
                proof {
                    lemma_arp_row_of_unknown(seen, row@);
                    assert(devices.deep_view() =~= before.push(opened_by_arp(row@)));
                }
            },
        }
        i += 1;
    }
    proof {
        assert(arp.deep_view().take(arp.len() as int) =~= arp.deep_view());
        assert(ndp.deep_view().take(0) =~= none);
    }
    let mut j: usize = 0;
    while j < ndp.len()
        invariant
            j <= ndp.len(),
            devices.deep_view() == merged(arp.deep_view(), ndp.deep_view().take(j as int)),
        decreases ndp.len() - j,
    {
        let row = &ndp[j];
        let ghost seen = ndp.deep_view().take(j as int);
        let ghost before = devices.deep_view();
        proof {
            assert(ndp.deep_view().take(j + 1) =~= seen.push(row@));
        }
        match position_of(&devices, &row.mac) {
            Some(at) => {
                absorb_ndp(&mut devices[at], row);
                proof {
                    lemma_ndp_row_of_known(arp.deep_view(), seen, row@, at as int);
                    assert(devices.deep_view() =~= before.update(
                        at as int,
                        after_ndp(before[at as int], row@),
                    ));
                }
            },
            None => {
                devices.push(open_from_ndp(row));
                proof {
                    lemma_ndp_row_of_unknown(arp.deep_view(), seen, row@);
                    assert(devices.deep_view() =~= before.push(opened_by_ndp(row@)));
                }
            },
        }
        j += 1;
    }
    proof {
        assert(ndp.deep_view().take(ndp.len() as int) =~= ndp.deep_view());
    }
    devices
}

// ---------------------------------------------------------------------------
// What holds of every inventory.
// ---------------------------------------------------------------------------

/// A hardware address occurs in the feed exactly when a row of one of the
/// tables carries it.
pub proof fn lemma_feed_macs(mac: Seq<char>, arp: Seq<DeviceView>, ndp: Seq<NdpDeviceView>)
    ensures
        arp_macs(arp).contains(mac) <==> in_arp(mac, arp),
        ndp_macs(ndp).contains(mac) <==> in_ndp(mac, ndp),
        feed_macs(arp, ndp).contains(mac) <==> in_arp(mac, arp) || in_ndp(mac, ndp),
{
    vstd::seq_lib::lemma_seq_concat_contains_all_elements(arp_macs(arp), ndp_macs(ndp), mac);
    if in_arp(mac, arp) {
        let i = choose|i: int| 0 <= i < arp.len() && (#[trigger] arp[i]).mac == mac;
        assert(arp_macs(arp)[i] == mac);
    }
    if arp_macs(arp).contains(mac) {
        let i = choose|i: int| 0 <= i < arp_macs(arp).len() && arp_macs(arp)[i] == mac;
        assert(arp[i].mac == mac);
    }
    if in_ndp(mac, ndp) {
        let i = choose|i: int| 0 <= i < ndp.len() && (#[trigger] ndp[i]).mac == mac;
        assert(ndp_macs(ndp)[i] == mac);
    }
    if ndp_macs(ndp).contains(mac) {
        let i = choose|i: int| 0 <= i < ndp_macs(ndp).len() && ndp_macs(ndp)[i] == mac;
        assert(ndp[i].mac == mac);
    }
}

/// One record per hardware address: an address has a record exactly when a
/// row of either table carries it, and no two records share an address.
pub proof fn lemma_one_record_per_mac(arp: Seq<DeviceView>, ndp: Seq<NdpDeviceView>)
    ensures
        forall|mac: Seq<char>|
            in_arp(mac, arp) || in_ndp(mac, ndp) <==> exists|k: int|
                0 <= k < merged(arp, ndp).len() && (#[trigger] merged(arp, ndp)[k]).mac == mac,
        forall|j: int, k: int|
            0 <= j < k < merged(arp, ndp).len() ==> (#[trigger] merged(arp, ndp)[j]).mac != (
            #[trigger] merged(arp, ndp)[k]).mac,
{
    let feed = feed_macs(arp, ndp);
    let macs = distinct(feed);
    let all = merged(arp, ndp);
    lemma_distinct(feed);
    assert forall|mac: Seq<char>| in_arp(mac, arp) || in_ndp(mac, ndp) <==> exists|k: int|
        0 <= k < all.len() && (#[trigger] all[k]).mac == mac by {
        lemma_feed_macs(mac, arp, ndp);
        if feed.contains(mac) {
            assert(macs.contains(mac));
            let k = choose|k: int| 0 <= k < macs.len() && macs[k] == mac;
            assert(all[k].mac == mac);
        }
        if exists|k: int| 0 <= k < all.len() && (#[trigger] all[k]).mac == mac {
            let k = choose|k: int| 0 <= k < all.len() && (#[trigger] all[k]).mac == mac;
            assert(macs[k] == mac);
            assert(macs.contains(mac));
        }
    }
    assert forall|j: int, k: int| 0 <= j < k < all.len() implies (#[trigger] all[j]).mac != (
    #[trigger] all[k]).mac by {
        assert(macs[j] != macs[k]);
    }
}

/// No address is listed twice in a record, however often the tables repeat
/// it.
pub proof fn lemma_addresses_listed_once(arp: Seq<DeviceView>, ndp: Seq<NdpDeviceView>)
    ensures
        forall|k: int|
            0 <= k < merged(arp, ndp).len() ==> (#[trigger] merged(
                arp,
                ndp,
            )[k]).ipv4_addresses.no_duplicates() && merged(arp, ndp)[k].ipv6_addresses.no_duplicates(),
{
    let macs = distinct(feed_macs(arp, ndp));
    assert forall|k: int| 0 <= k < merged(arp, ndp).len() implies (#[trigger] merged(
        arp,
        ndp,
    )[k]).ipv4_addresses.no_duplicates() && merged(arp, ndp)[k].ipv6_addresses.no_duplicates() by {
        lemma_distinct(family(false, arp_ips(macs[k], arp) + ndp_ips(macs[k], ndp)));
        lemma_distinct(family(true, arp_ips(macs[k], arp) + ndp_ips(macs[k], ndp)));
    }
}

/// Lease state and device type are present in a record exactly when an ARP
/// row carries its hardware address, whatever the neighbour-discovery table
/// holds.
pub proof fn lemma_lease_fields_from_arp(arp: Seq<DeviceView>, ndp: Seq<NdpDeviceView>)
    ensures
        forall|k: int|
            0 <= k < merged(arp, ndp).len() ==> {
                let device = #[trigger] merged(arp, ndp)[k];
                &&& device.expired is Some <==> in_arp(device.mac, arp)
                &&& device.expires is Some <==> in_arp(device.mac, arp)
                &&& device.permanent is Some <==> in_arp(device.mac, arp)
                &&& device.device_type is Some <==> in_arp(device.mac, arp)
            },
{
    let macs = distinct(feed_macs(arp, ndp));
    assert forall|k: int| 0 <= k < merged(arp, ndp).len() implies {
        let device = #[trigger] merged(arp, ndp)[k];
        &&& device.expired is Some <==> in_arp(device.mac, arp)
        &&& device.expires is Some <==> in_arp(device.mac, arp)
        &&& device.permanent is Some <==> in_arp(device.mac, arp)
        &&& device.device_type is Some <==> in_arp(device.mac, arp)
    } by {
        lemma_arp_rows_exist(macs[k], arp);
        lemma_feed_macs(macs[k], arp, ndp);
    }
}

/// The lists of a record hold addresses of their own family only, and only
/// addresses that some row reports for that hardware address.
pub proof fn lemma_addresses_sound(
    mac: Seq<char>,
    v6: bool,
    arp: Seq<DeviceView>,
    ndp: Seq<NdpDeviceView>,
    ip: Seq<char>,
)
    requires
        addresses(mac, v6, arp, ndp).contains(ip),
    ensures
        is_ipv6_text(ip) == v6,
        (exists|i: int| 0 <= i < arp.len() && arp[i].mac == mac && arp[i].ip == ip) || (exists|
            i: int,
        | 0 <= i < ndp.len() && ndp[i].mac == mac && ndp[i].ip == ip),
{
    let sighted = arp_ips(mac, arp) + ndp_ips(mac, ndp);
    let of_family = family(v6, sighted);
    let pred = |ip: Seq<char>| is_ipv6_text(ip) == v6;
    lemma_distinct(of_family);
    assert(of_family.contains(ip));
    let at = choose|at: int| 0 <= at < of_family.len() && of_family[at] == ip;
    sighted.lemma_filter_pred(pred, at);
    sighted.lemma_filter_contains_rev(pred, ip);
    vstd::seq_lib::lemma_seq_concat_contains_all_elements(arp_ips(mac, arp), ndp_ips(mac, ndp), ip);
    if arp_ips(mac, arp).contains(ip) {
        let rows = arp_for(mac, arp);
        let by_mac = |r: DeviceView| r.mac == mac;
        let j = choose|j: int| 0 <= j < arp_ips(mac, arp).len() && arp_ips(mac, arp)[j] == ip;
        arp.lemma_filter_pred(by_mac, j);
        assert(rows.contains(rows[j]));
        arp.lemma_filter_contains_rev(by_mac, rows[j]);
        let i = choose|i: int| 0 <= i < arp.len() && arp[i] == rows[j];
        assert(arp[i].mac == mac && arp[i].ip == ip);
    } else {
        let rows = ndp_for(mac, ndp);
        let by_mac = |r: NdpDeviceView| r.mac == mac;
        let j = choose|j: int| 0 <= j < ndp_ips(mac, ndp).len() && ndp_ips(mac, ndp)[j] == ip;
        ndp.lemma_filter_pred(by_mac, j);
        assert(rows.contains(rows[j]));
        ndp.lemma_filter_contains_rev(by_mac, rows[j]);
        let i = choose|i: int| 0 <= i < ndp.len() && ndp[i] == rows[j];
        assert(ndp[i].mac == mac && ndp[i].ip == ip);
    }
}

/// The address of every ARP row is listed in the record of the row's
/// hardware address, in the list of the address's family.
pub proof fn lemma_arp_address_listed(arp: Seq<DeviceView>, ndp: Seq<NdpDeviceView>, i: int)
    requires
        0 <= i < arp.len(),
    ensures
        addresses(arp[i].mac, is_ipv6_text(arp[i].ip), arp, ndp).contains(arp[i].ip),
{
    let mac = arp[i].mac;
    let ip = arp[i].ip;
    let v6 = is_ipv6_text(ip);
    let rows = arp_for(mac, arp);
    arp.lemma_filter_contains(|r: DeviceView| r.mac == mac, i);
    let j = choose|j: int| 0 <= j < rows.len() && rows[j] == arp[i];
    assert(arp_ips(mac, arp)[j] == ip);
    let sighted = arp_ips(mac, arp) + ndp_ips(mac, ndp);
    assert(sighted[j] == ip);
    sighted.lemma_filter_contains(|ip: Seq<char>| is_ipv6_text(ip) == v6, j);
    lemma_distinct(family(v6, sighted));
}

/// The address of every neighbour-discovery row is listed in the record of
/// the row's hardware address, in the list of the address's family.
pub proof fn lemma_ndp_address_listed(arp: Seq<DeviceView>, ndp: Seq<NdpDeviceView>, i: int)
    requires
        0 <= i < ndp.len(),
    ensures
        addresses(ndp[i].mac, is_ipv6_text(ndp[i].ip), arp, ndp).contains(ndp[i].ip),
{
    let mac = ndp[i].mac;
    let ip = ndp[i].ip;
    let v6 = is_ipv6_text(ip);
    let rows = ndp_for(mac, ndp);
    ndp.lemma_filter_contains(|r: NdpDeviceView| r.mac == mac, i);
    let j = choose|j: int| 0 <= j < rows.len() && rows[j] == ndp[i];
    assert(ndp_ips(mac, ndp)[j] == ip);
    let sighted = arp_ips(mac, arp) + ndp_ips(mac, ndp);
    assert(sighted[arp_ips(mac, arp).len() + j] == ip);
    sighted.lemma_filter_contains(
        |ip: Seq<char>| is_ipv6_text(ip) == v6,
        arp_ips(mac, arp).len() + j,
    );
    lemma_distinct(family(v6, sighted));
}

/// What [`first_nonempty`] picks: the earliest string that is not empty, and
/// the empty string exactly when every string is empty.
pub proof fn lemma_first_nonempty(s: Seq<Seq<char>>)
    ensures
        first_nonempty(s).len() == 0 <==> forall|i: int| 0 <= i < s.len() ==> s[i].len() == 0,
        first_nonempty(s).len() > 0 ==> exists|i: int|
            0 <= i < s.len() && first_nonempty(s) == #[trigger] s[i] && forall|j: int|
                0 <= j < i ==> s[j].len() == 0,
    decreases s.len(),
{
    if s.len() > 0 {
        let front = s.drop_last();
        lemma_first_nonempty(front);
        if first_nonempty(front).len() > 0 {
            let i = choose|i: int|
                0 <= i < front.len() && first_nonempty(front) == #[trigger] front[i] && forall|
                    j: int,
                | 0 <= j < i ==> front[j].len() == 0;
            assert(first_nonempty(s) == s[i]);
            assert forall|j: int| 0 <= j < i implies s[j].len() == 0 by {
                assert(front[j].len() == 0);
            }
        } else {
            assert forall|j: int| 0 <= j < s.len() - 1 implies s[j].len() == 0 by {
                assert(front[j].len() == 0);
            }
            if s.last().len() > 0 {
                assert(first_nonempty(s) == s[s.len() - 1]);
            }
        }
    }
}

/// Host-name backfill: a further ARP row of an address gives the record its
/// host name only where the record has none yet; a host name once set stays.
pub proof fn lemma_hostname_backfill(
    arp: Seq<DeviceView>,
    ndp: Seq<NdpDeviceView>,
    row: DeviceView,
)
    ensures
        combined(row.mac, arp.push(row), ndp).hostname == if combined(
            row.mac,
            arp,
            ndp,
        ).hostname.len() > 0 {
            combined(row.mac, arp, ndp).hostname
        } else {
            row.hostname
        },
{
    lemma_arp_for_push(row.mac, arp, row);
    lemma_first_nonempty_push(arp_hostnames(row.mac, arp), row.hostname);
}

/// Manufacturer backfill: a neighbour-discovery row of an address gives the
/// record its manufacturer only where the record has none yet; a manufacturer
/// once set, by an ARP row or an earlier neighbour-discovery row, stays.
pub proof fn lemma_manufacturer_backfill(
    arp: Seq<DeviceView>,
    ndp: Seq<NdpDeviceView>,
    row: NdpDeviceView,
)
    ensures
        combined(row.mac, arp, ndp.push(row)).manufacturer == if combined(
            row.mac,
            arp,
            ndp,
        ).manufacturer.len() > 0 {
            combined(row.mac, arp, ndp).manufacturer
        } else {
            row.manufacturer
        },
{
    lemma_ndp_for_push(row.mac, ndp, row);
    lemma_first_nonempty_push(ndp_manufacturers(row.mac, ndp), row.manufacturer);
}

/// Every record of an inventory is consistent: see
/// [`CombinedDeviceView::is_consistent`].
pub proof fn lemma_records_consistent(arp: Seq<DeviceView>, ndp: Seq<NdpDeviceView>)
    ensures
        forall|k: int|
            0 <= k < merged(arp, ndp).len() ==> (#[trigger] merged(arp, ndp)[k]).is_consistent(),
{
    let feed = feed_macs(arp, ndp);
    let macs = distinct(feed);
    lemma_distinct(feed);
    lemma_addresses_listed_once(arp, ndp);
    assert forall|k: int| 0 <= k < merged(arp, ndp).len() implies (#[trigger] merged(
        arp,
        ndp,
    )[k]).is_consistent() by {
        let mac = macs[k];
        let device = merged(arp, ndp)[k];
        assert forall|i: int| 0 <= i < device.ipv4_addresses.len() implies !is_ipv6_text(
            #[trigger] device.ipv4_addresses[i],
        ) by {
            lemma_addresses_sound(mac, false, arp, ndp, device.ipv4_addresses[i]);
        }
        assert forall|i: int| 0 <= i < device.ipv6_addresses.len() implies is_ipv6_text(
            #[trigger] device.ipv6_addresses[i],
        ) by {
            lemma_addresses_sound(mac, true, arp, ndp, device.ipv6_addresses[i]);
        }
        assert(feed.contains(mac)) by {
            assert(macs.contains(mac));
        }
        vstd::seq_lib::lemma_seq_concat_contains_all_elements(arp_macs(arp), ndp_macs(ndp), mac);
        if arp_macs(arp).contains(mac) {
            let i = choose|i: int| 0 <= i < arp_macs(arp).len() && arp_macs(arp)[i] == mac;
            lemma_arp_address_listed(arp, ndp, i);
            let listed = addresses(mac, is_ipv6_text(arp[i].ip), arp, ndp);
            assert(listed.len() > 0) by {
                let at = choose|at: int| 0 <= at < listed.len() && listed[at] == arp[i].ip;
            }
        } else {
            let i = choose|i: int| 0 <= i < ndp_macs(ndp).len() && ndp_macs(ndp)[i] == mac;
            lemma_ndp_address_listed(arp, ndp, i);
            let listed = addresses(mac, is_ipv6_text(ndp[i].ip), arp, ndp);
            assert(listed.len() > 0) by {
                let at = choose|at: int| 0 <= at < listed.len() && listed[at] == ndp[i].ip;
            }
        }
        lemma_arp_rows_exist(mac, arp);
        if arp_for(mac, arp).len() == 0 {
            assert(arp_hostnames(mac, arp) =~= Seq::<Seq<char>>::empty());
        }
    }
}

} // verus!
