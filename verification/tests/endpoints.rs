use firewall_client::devices::{
    flush_arp_table_call, get_devices_call, get_ndp_devices_call, NdpDevice, NdpResponse,
};
use firewall_client::error::{ApiError, ConfigError, DecodeError};
use firewall_client::call::ApiCall;
use firewall_client::gateway::{prepare, ApiRequest, Header, Method};
use firewall_client::payload::{JsonValue, Member, Payload};
use firewall_client::power::reboot_firewall_call;
use firewall_client::profile::{build_api_url, require_profile, ApiProfile};
use firewall_client::snapshots::{
    activate_snapshot_call, add_snapshot_call, delete_snapshot_call, get_new_snapshot_call,
    get_snapshot_call, get_snapshots_call, is_snapshots_supported_call, snapshots_supported,
    update_snapshot_call,
};

fn profile() -> ApiProfile {
    ApiProfile {
        api_url: "https://192.168.1.1".to_string(),
        port: 8443,
        api_key: "key".to_string(),
        api_secret: "secret".to_string(),
    }
}

fn member(name: &str, value: JsonValue) -> Member {
    Member { name: name.to_string(), value }
}

fn search(current: u32, row_count: u32) -> Payload {
    Payload {
        members: vec![
            member("current", JsonValue::Number(current)),
            member("rowCount", JsonValue::Number(row_count)),
            member("sort", JsonValue::EmptyObject),
            member("searchPhrase", JsonValue::Text(String::new())),
        ],
    }
}

fn snapshot(uuid: &str, name: &str) -> Payload {
    Payload {
        members: vec![
            member("uuid", JsonValue::Text(uuid.to_string())),
            member("name", JsonValue::Text(name.to_string())),
        ],
    }
}

fn expected(
    request_type: &str,
    path: &str,
    payload: Option<Payload>,
    headers: Vec<Header>,
    context: &str,
) -> ApiCall {
    ApiCall {
        request: ApiRequest {
            request_type: request_type.to_string(),
            url: format!("https://192.168.1.1:8443{}", path),
            payload,
            headers,
            timeout_seconds: Some(30),
            api_key: Some("key".to_string()),
            api_secret: Some("secret".to_string()),
        },
        decode_context: context.to_string(),
    }
}

#[test]
fn url_is_base_colon_port_and_endpoint() {
    assert_eq!(build_api_url(&profile(), "/api/x"), "https://192.168.1.1:8443/api/x");
    let mut other = profile();
    other.port = 0;
    other.api_url = "http://fw".to_string();
    assert_eq!(build_api_url(&other, ""), "http://fw:0");
    other.port = 65535;
    assert_eq!(build_api_url(&other, "/a?b=c"), "http://fw:65535/a?b=c");
    other.port = 443;
    other.api_url = String::new();
    assert_eq!(build_api_url(&other, "x"), ":443x");
}

#[test]
fn missing_profile_is_a_configuration_error() {
    assert_eq!(require_profile(None), Err(ApiError::Config(ConfigError::MissingProfile)));
    assert_eq!(require_profile(Some(profile())), Ok(profile()));
}

#[test]
fn arp_table_call() {
    assert_eq!(
        get_devices_call(&profile()),
        expected("GET", "/api/diagnostics/interface/getArp", None, vec![], "Failed to parse response")
    );
}

#[test]
fn ndp_table_call() {
    assert_eq!(
        get_ndp_devices_call(&profile()),
        expected(
            "POST",
            "/api/diagnostics/interface/search_ndp/",
            Some(search(1, 1000)),
            vec![],
            "Failed to parse NDP response"
        )
    );
}

#[test]
fn flush_call() {
    assert_eq!(
        flush_arp_table_call(&profile()),
        expected(
            "POST",
            "/api/diagnostics/interface/flushArp",
            Some(Payload { members: vec![] }),
            vec![],
            "Failed to get response body"
        )
    );
}

#[test]
fn reboot_call() {
    assert_eq!(
        reboot_firewall_call(&profile()),
        expected(
            "POST",
            "/api/core/system/reboot",
            Some(Payload { members: vec![] }),
            vec![Header { name: "content-type".to_string(), value: "application/json".to_string() }],
            "Failed to parse response"
        )
    );
}

#[test]
fn snapshot_calls() {
    let p = profile();
    assert_eq!(
        is_snapshots_supported_call(&p),
        expected("GET", "/api/core/snapshots/is_supported/", None, vec![], "Failed to parse response")
    );
    assert_eq!(
        get_snapshots_call(&p, 3, 25),
        expected(
            "POST",
            "/api/core/snapshots/search",
            Some(search(3, 25)),
            vec![],
            "Failed to parse snapshots"
        )
    );
    assert_eq!(
        get_new_snapshot_call(&p),
        expected("GET", "/api/core/snapshots/get/", None, vec![], "Failed to get new snapshot info")
    );
    assert_eq!(
        get_snapshot_call(&p, "abc-1", None),
        expected("GET", "/api/core/snapshots/get/abc-1", None, vec![], "Failed to get snapshot")
    );
    assert_eq!(
        get_snapshot_call(&p, "abc-1", Some("copy")),
        expected(
            "GET",
            "/api/core/snapshots/get/abc-1?fetchmode=copy",
            None,
            vec![],
            "Failed to get snapshot"
        )
    );
    assert_eq!(
        add_snapshot_call(&p, "nightly", None),
        expected(
            "POST",
            "/api/core/snapshots/add/",
            Some(snapshot("", "nightly")),
            vec![],
            "Failed to add snapshot"
        )
    );
    assert_eq!(
        add_snapshot_call(&p, "clone", Some("abc-1")),
        expected(
            "POST",
            "/api/core/snapshots/add/",
            Some(snapshot("abc-1", "clone")),
            vec![],
            "Failed to add snapshot"
        )
    );
    assert_eq!(
        delete_snapshot_call(&p, "abc-1"),
        expected(
            "POST",
            "/api/core/snapshots/del/abc-1",
            Some(Payload { members: vec![] }),
            vec![],
            "Failed to delete snapshot"
        )
    );
    assert_eq!(
        activate_snapshot_call(&p, "abc-1"),
        expected(
            "POST",
            "/api/core/snapshots/activate/abc-1",
            Some(Payload { members: vec![] }),
            vec![],
            "Failed to activate snapshot"
        )
    );
    assert_eq!(
        update_snapshot_call(&p, "abc-1", "renamed"),
        expected(
            "POST",
            "/api/core/snapshots/set/abc-1",
            Some(snapshot("abc-1", "renamed")),
            vec![],
            "Failed to update snapshot"
        )
    );
}

#[test]
fn every_call_prepares_with_its_method_and_credentials() {
    let p = profile();
    let calls = vec![
        (get_devices_call(&p), Method::Get),
        (get_ndp_devices_call(&p), Method::Post),
        (flush_arp_table_call(&p), Method::Post),
        (reboot_firewall_call(&p), Method::Post),
        (is_snapshots_supported_call(&p), Method::Get),
        (get_snapshots_call(&p, 1, 10), Method::Post),
        (get_new_snapshot_call(&p), Method::Get),
        (get_snapshot_call(&p, "u", Some("copy")), Method::Get),
        (add_snapshot_call(&p, "n", None), Method::Post),
        (delete_snapshot_call(&p, "u"), Method::Post),
        (activate_snapshot_call(&p, "u"), Method::Post),
        (update_snapshot_call(&p, "u", "n"), Method::Post),
    ];
    for (call, method) in calls {
        let wire = prepare(call.request).unwrap();
        assert_eq!(wire.method, method);
        assert_eq!(wire.authorization, Some("Basic a2V5OnNlY3JldA==".to_string()));
        assert_eq!(wire.timeout_seconds, Some(30));
        assert!(wire.accept_invalid_certs);
    }
}

#[test]
fn decode_failure_carries_the_context_of_the_call() {
    let call = get_ndp_devices_call(&profile());
    assert_eq!(
        call.decode_failure("missing field `rows`"),
        ApiError::Decode(DecodeError::MalformedBody {
            detail: "Failed to parse NDP response: missing field `rows`".to_string()
        })
    );
}

#[test]
fn supported_flag_defaults_to_false() {
    assert!(snapshots_supported(Some(true)));
    assert!(!snapshots_supported(Some(false)));
    assert!(!snapshots_supported(None));
}

#[test]
fn only_the_rows_of_the_ndp_envelope_are_returned() {
    let row = NdpDevice {
        mac: "aa".to_string(),
        ip: "fe80::1".to_string(),
        intf: "em0".to_string(),
        manufacturer: String::new(),
        intf_description: "LAN".to_string(),
    };
    let envelope = NdpResponse { total: 7, row_count: 1000, current: 1, rows: vec![row.clone()] };
    assert_eq!(envelope.into_rows(), vec![row]);
}

#[test]
fn request_bodies() {
    assert_eq!(Payload::empty(), Payload { members: vec![] });
    assert_eq!(Payload::search(1, 1000), search(1, 1000));
    assert_eq!(Payload::search(0, u32::MAX), search(0, u32::MAX));
    assert_eq!(Payload::snapshot("u", "n"), snapshot("u", "n"));
    assert_eq!(Payload::snapshot("", ""), snapshot("", ""));
}
