//! The device service: the records of the ARP and neighbour-discovery
//! tables, the combined per-device record built from them, the calls that
//! fetch and flush the tables, and the reading of the flush output.

use vstd::prelude::*;
use crate::call::{call_endpoint, call_to, no_headers, ApiCall};
use crate::gateway::{lemma_method_names, method_named, Method};
use crate::payload::{empty_object, search_object, Payload};
use crate::profile::ApiProfile;
use crate::text::{
    chars_of,
    contains_char,
    first_token,
    is_space,
    lemma_run_len,
    run_end,
    run_len,
    text_of,
    CharClass,
};

verus! {

/// One row of the ARP table.
#[derive(Debug, Clone, PartialEq, Eq)]
pub struct Device {
    pub mac: String,
    pub ip: String,
    pub intf: String,
    pub expired: bool,
    pub expires: i32,
    pub permanent: bool,
    pub device_type: String,
    pub manufacturer: String,
    pub hostname: String,
    pub intf_description: String,
}

/// Mathematical value of a [`Device`].
pub struct DeviceView {
    pub mac: Seq<char>,
    pub ip: Seq<char>,
    pub intf: Seq<char>,
    pub expired: bool,
    pub expires: i32,
    pub permanent: bool,
    pub device_type: Seq<char>,
    pub manufacturer: Seq<char>,
    pub hostname: Seq<char>,
    pub intf_description: Seq<char>,
}

impl View for Device {
    type V = DeviceView;

    open spec fn view(&self) -> DeviceView {
        DeviceView {
            mac: self.mac@,
            ip: self.ip@,
            intf: self.intf@,
            expired: self.expired,
            expires: self.expires,
            permanent: self.permanent,
            device_type: self.device_type@,
            manufacturer: self.manufacturer@,
            hostname: self.hostname@,
            intf_description: self.intf_description@,
        }
    }
}

impl DeepView for Device {
    type V = DeviceView;

    open spec fn deep_view(&self) -> DeviceView {
        self@
    }
}

/// One row of the neighbour-discovery table.
#[derive(Debug, Clone, PartialEq, Eq)]
pub struct NdpDevice {
    pub mac: String,
    pub ip: String,
    pub intf: String,
    pub manufacturer: String,
    pub intf_description: String,
}

/// Mathematical value of an [`NdpDevice`].
pub struct NdpDeviceView {
    pub mac: Seq<char>,
    pub ip: Seq<char>,
    pub intf: Seq<char>,
    pub manufacturer: Seq<char>,
    pub intf_description: Seq<char>,
}

impl View for NdpDevice {
    type V = NdpDeviceView;

    open spec fn view(&self) -> NdpDeviceView {
        NdpDeviceView {
            mac: self.mac@,
            ip: self.ip@,
            intf: self.intf@,
            manufacturer: self.manufacturer@,
            intf_description: self.intf_description@,
        }
    }
}

impl DeepView for NdpDevice {
    type V = NdpDeviceView;

    open spec fn deep_view(&self) -> NdpDeviceView {
        self@
    }
}

/// The paginated envelope in which the neighbour-discovery rows arrive.
#[derive(Debug, Clone, PartialEq, Eq)]
pub struct NdpResponse {
    pub total: u32,
    pub row_count: u32,
    pub current: u32,
    pub rows: Vec<NdpDevice>,
}

impl NdpResponse {
    /// Unwraps the envelope: the rows and nothing else.
    pub fn into_rows(self) -> (rows: Vec<NdpDevice>)
        ensures
            rows == self.rows,
    {
        self.rows
    }
}

/// One device, reconciled from every row of either table that carries its
/// hardware address.
#[derive(Debug, Clone, PartialEq, Eq)]
pub struct CombinedDevice {
    pub mac: String,
    pub ipv4_addresses: Vec<String>,
    pub ipv6_addresses: Vec<String>,
    pub intf: String,
    pub expired: Option<bool>,
    pub expires: Option<i32>,
    pub permanent: Option<bool>,
    pub device_type: Option<String>,
    pub manufacturer: String,
    pub hostname: String,
    pub intf_description: String,
}

/// Mathematical value of a [`CombinedDevice`].
pub struct CombinedDeviceView {
    pub mac: Seq<char>,
    pub ipv4_addresses: Seq<Seq<char>>,
    pub ipv6_addresses: Seq<Seq<char>>,
    pub intf: Seq<char>,
    pub expired: Option<bool>,
    pub expires: Option<i32>,
    pub permanent: Option<bool>,
    pub device_type: Option<Seq<char>>,
    pub manufacturer: Seq<char>,
    pub hostname: Seq<char>,
    pub intf_description: Seq<char>,
}

impl View for CombinedDevice {
    type V = CombinedDeviceView;

    open spec fn view(&self) -> CombinedDeviceView {
        CombinedDeviceView {
            mac: self.mac@,
            ipv4_addresses: self.ipv4_addresses.deep_view(),
            ipv6_addresses: self.ipv6_addresses.deep_view(),
            intf: self.intf@,
            expired: self.expired,
            expires: self.expires,
            permanent: self.permanent,
            device_type: match self.device_type {
                Some(t) => Some(t@),
                None => None,
            },
            manufacturer: self.manufacturer@,
            hostname: self.hostname@,
            intf_description: self.intf_description@,
        }
    }
}

impl CombinedDeviceView {
    /// What holds of every record that a reconciliation produces: no address
    /// is listed twice, each list holds addresses of its own family only, the
    /// record has at least one address, lease state and device type are
    /// present together or not at all, and a record without them has no host
    /// name.
    pub open spec fn is_consistent(self) -> bool {
        &&& self.ipv4_addresses.no_duplicates()
        &&& self.ipv6_addresses.no_duplicates()
        &&& forall|i: int|
            0 <= i < self.ipv4_addresses.len() ==> !is_ipv6_text(#[trigger] self.ipv4_addresses[i])
        &&& forall|i: int|
            0 <= i < self.ipv6_addresses.len() ==> is_ipv6_text(#[trigger] self.ipv6_addresses[i])
        &&& self.ipv4_addresses.len() + self.ipv6_addresses.len() > 0
        &&& self.expired is Some <==> self.expires is Some
        &&& self.expired is Some <==> self.permanent is Some
        &&& self.expired is Some <==> self.device_type is Some
        &&& self.expired is None ==> self.hostname.len() == 0
    }
}

impl DeepView for CombinedDevice {
    type V = CombinedDeviceView;

    open spec fn deep_view(&self) -> CombinedDeviceView {
        self@
    }
}

/// The addresses that a flush of the ARP table removed.
#[derive(Debug, Clone, PartialEq, Eq)]
pub struct FlushArpResponse {
    pub deleted: Vec<String>,
}

/// An address is IPv6 exactly when its text holds a colon; anything else
/// counts as IPv4. No stricter parsing is intended.
pub open spec fn is_ipv6_text(ip: Seq<char>) -> bool {
    ip.contains(':')
}

/// Address-family test for one address in text form.
pub fn is_ipv6(ip: &str) -> (v6: bool)
    ensures
        v6 == is_ipv6_text(ip@),
{
    contains_char(ip, ':')
}

/// Path of the endpoint that lists the ARP table.
pub const ARP_PATH: &'static str = "/api/diagnostics/interface/getArp";

/// Path of the endpoint that searches the neighbour-discovery table.
pub const NDP_PATH: &'static str = "/api/diagnostics/interface/search_ndp/";

/// Path of the endpoint that flushes the ARP table.
pub const FLUSH_ARP_PATH: &'static str = "/api/diagnostics/interface/flushArp";

/// The number of neighbour-discovery rows asked for in one page.
pub const NDP_PAGE_ROWS: u32 = 1000;

/// The call that fetches the ARP table: a `GET` without a body; the response
/// is a JSON array of [`Device`].
pub fn get_devices_call(profile: &ApiProfile) -> (call: ApiCall)
    ensures
        call@ == call_to(
            profile@,
            "GET"@,
            ARP_PATH@,
            None,
            Seq::empty(),
            "Failed to parse response"@,
        ),
        method_named(call@.request.request_type) == Some(Method::Get),
{
    call_endpoint(profile, "GET", ARP_PATH, None, no_headers(), "Failed to parse response")
}

/// The call that fetches the neighbour-discovery table: a `POST` asking for
/// the first page of [`NDP_PAGE_ROWS`] rows; the response is an
/// [`NdpResponse`].
pub fn get_ndp_devices_call(profile: &ApiProfile) -> (call: ApiCall)
    ensures
        call@ == call_to(
            profile@,
            "POST"@,
            NDP_PATH@,
            Some(search_object(1, NDP_PAGE_ROWS)),
            Seq::empty(),
            "Failed to parse NDP response"@,
        ),
        method_named(call@.request.request_type) == Some(Method::Post),
{
    proof {
        lemma_method_names();
    }
    call_endpoint(
        profile,
        "POST",
        NDP_PATH,
        Some(Payload::search(1, NDP_PAGE_ROWS)),
        no_headers(),
        "Failed to parse NDP response",
    )
}

/// The call that flushes the ARP table: a `POST` of the empty object; the
/// response is plain text, read by [`flush_arp_table_response`].
pub fn flush_arp_table_call(profile: &ApiProfile) -> (call: ApiCall)
    ensures
        call@ == call_to(
            profile@,
            "POST"@,
            FLUSH_ARP_PATH@,
            Some(empty_object()),
            Seq::empty(),
            "Failed to get response body"@,
        ),
        method_named(call@.request.request_type) == Some(Method::Post),
{
    proof {
        lemma_method_names();
    }
    call_endpoint(
        profile,
        "POST",
        FLUSH_ARP_PATH,
        Some(Payload::empty()),
        no_headers(),
        "Failed to get response body",
    )
}

/// The addresses that the text answer to a flush reports.
///
/// The answer holds one record per line, lines ending at a line feed. The
/// address of a record is the first whitespace-delimited token of its line;
/// whatever follows it on the line is ignored. Blank lines report nothing.
/// The addresses come in the order of their lines; repeated addresses stay.
pub open spec fn flushed_addresses(body: Seq<char>) -> Seq<Seq<char>>
    decreases body.len(),
{
    if body.len() == 0 {
        Seq::empty()
    } else {
        let end = run_len(CharClass::InLine, body);
        let token = first_token(body.take(end));
        let rest = if 0 <= end < body.len() {
            flushed_addresses(body.skip(end + 1))
        } else {
            Seq::empty()
        };
        if token.len() > 0 {
            seq![token] + rest
        } else {
            rest
        }
    }
}

/// Reads the text answer to a flush of the ARP table.
pub fn flush_arp_table_response(body: &str) -> (response: FlushArpResponse)
    ensures
        response.deleted.deep_view() == flushed_addresses(body@),
{
    let chars = chars_of(body);
    let mut deleted: Vec<String> = Vec::new();
    let mut start: usize = 0;
    proof {
        assert(chars@.skip(0) =~= chars@);
        assert(deleted.deep_view() =~= Seq::<Seq<char>>::empty());
        assert(deleted.deep_view() + flushed_addresses(chars@.skip(0)) =~= flushed_addresses(
            chars@,
        ));
    }
    while start < chars.len()
        invariant
            start <= chars.len(),
            deleted.deep_view() + flushed_addresses(chars@.skip(start as int))
                == flushed_addresses(chars@),
        decreases chars.len() - start,
    {
        let ghost rest = chars@.skip(start as int);
        let ghost before = deleted.deep_view();
        let end = run_end(&chars, start, chars.len(), CharClass::InLine);
        let from = run_end(&chars, start, end, CharClass::Blank);
        let to = run_end(&chars, from, end, CharClass::Solid);
        let ghost line = rest.take(end - start);
        let ghost token = first_token(line);
        proof {
            assert(chars@.subrange(start as int, chars.len() as int) =~= rest);
            assert(chars@.subrange(start as int, end as int) =~= line);
            assert(chars@.subrange(from as int, end as int) =~= line.skip(from - start));
            assert(chars@.subrange(from as int, to as int) =~= token);
            if end < chars.len() {
                assert(rest.skip(end - start + 1) =~= chars@.skip(end + 1));
            }
        }
        if to > from {
            deleted.push(text_of(&chars, from, to));
            proof {
                assert(deleted.deep_view() =~= before.push(token));
            }
        }
        start = if end < chars.len() {
            end + 1
        } else {
            end
        };
        proof {
            let later = flushed_addresses(chars@.skip(start as int));
            if end == chars.len() {
                assert(later =~= Seq::<Seq<char>>::empty());
            }
            assert(before.push(token) + later =~= before + (seq![token] + later));
        }
    }
    proof {
        assert(flushed_addresses(chars@.skip(start as int)) =~= Seq::<Seq<char>>::empty());
        assert(deleted.deep_view() + Seq::<Seq<char>>::empty() =~= deleted.deep_view());
    }
    FlushArpResponse { deleted }
}

/// A body that holds nothing but whitespace reports no address.
pub proof fn lemma_blank_body_reports_nothing(body: Seq<char>)
    requires
        forall|i: int| 0 <= i < body.len() ==> is_space(body[i]),
    ensures
        flushed_addresses(body) == Seq::<Seq<char>>::empty(),
    decreases body.len(),
{
    if body.len() > 0 {
        let end = run_len(CharClass::InLine, body);
        lemma_run_len(CharClass::InLine, body);
        let line = body.take(end);
        lemma_run_len(CharClass::Blank, line);
        let blank = run_len(CharClass::Blank, line);
        if blank < line.len() {
            assert(line[blank] == body[blank]);
        }
        assert(line.skip(blank).len() == 0);
        if end < body.len() {
            let rest = body.skip(end + 1);
            assert forall|i: int| 0 <= i < rest.len() implies is_space(rest[i]) by {
                assert(rest[i] == body[end + 1 + i]);
            }
            lemma_blank_body_reports_nothing(rest);
        }
    }
}

/// Every reported address is a token: it is not empty and holds no
/// whitespace.
pub proof fn lemma_reported_addresses_are_tokens(body: Seq<char>)
    ensures
        forall|k: int|
            0 <= k < flushed_addresses(body).len() ==> {
                let token = #[trigger] flushed_addresses(body)[k];
                token.len() > 0 && forall|j: int| 0 <= j < token.len() ==> !is_space(token[j])
            },
    decreases body.len(),
{
    if body.len() > 0 {
        let end = run_len(CharClass::InLine, body);
        lemma_run_len(CharClass::InLine, body);
        let line = body.take(end);
        let tail = line.skip(run_len(CharClass::Blank, line));
        lemma_run_len(CharClass::Blank, line);
        lemma_run_len(CharClass::Solid, tail);
        let token = first_token(line);
        assert forall|j: int| 0 <= j < token.len() implies !is_space(token[j]) by {
            assert(token[j] == tail[j]);
        }
        let rest = if end < body.len() {
            flushed_addresses(body.skip(end + 1))
        } else {
            Seq::empty()
        };
        if end < body.len() {
            lemma_reported_addresses_are_tokens(body.skip(end + 1));
        }
        assert forall|k: int| 0 <= k < flushed_addresses(body).len() implies {
            let t = #[trigger] flushed_addresses(body)[k];
            t.len() > 0 && forall|j: int| 0 <= j < t.len() ==> !is_space(t[j])
        } by {
            if token.len() > 0 {
                if k > 0 {
                    assert(flushed_addresses(body)[k] == rest[k - 1]);
                }
            } else {
                assert(flushed_addresses(body)[k] == rest[k]);
            }
        }
    }
}

} // verus!
