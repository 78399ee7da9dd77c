//! File-system snapshots of the appliance: the records the API returns and
//! the call that each operation makes.

use vstd::prelude::*;
use crate::call::{call_endpoint, call_to, no_headers, ApiCall};
use crate::gateway::{lemma_method_names, method_named, Method};
use crate::payload::{empty_object, search_object, snapshot_object, Payload};
use crate::profile::ApiProfile;

verus! {

/// One snapshot as the appliance lists it.
#[derive(Debug, Clone, PartialEq, Eq)]
pub struct Snapshot {
    pub uuid: String,
    pub name: String,
    pub active: String,
    pub mountpoint: String,
    pub size: String,
    pub created_str: String,
    pub created: i64,
}

/// Mathematical value of a [`Snapshot`].
pub struct SnapshotView {
    pub uuid: Seq<char>,
    pub name: Seq<char>,
    pub active: Seq<char>,
    pub mountpoint: Seq<char>,
    pub size: Seq<char>,
    pub created_str: Seq<char>,
    pub created: i64,
}

impl View for Snapshot {
    type V = SnapshotView;

    open spec fn view(&self) -> SnapshotView {
        SnapshotView {
            uuid: self.uuid@,
            name: self.name@,
            active: self.active@,
            mountpoint: self.mountpoint@,
            size: self.size@,
            created_str: self.created_str@,
            created: self.created,
        }
    }
}

impl DeepView for Snapshot {
    type V = SnapshotView;

    open spec fn deep_view(&self) -> SnapshotView {
        self@
    }
}

/// One page of the snapshot list.
#[derive(Debug, Clone, PartialEq, Eq)]
pub struct SnapshotSearchResponse {
    pub total: u32,
    pub row_count: u32,
    pub current: u32,
    pub rows: Vec<Snapshot>,
}

/// Mathematical value of a [`SnapshotSearchResponse`].
pub struct SnapshotSearchResponseView {
    pub total: u32,
    pub row_count: u32,
    pub current: u32,
    pub rows: Seq<SnapshotView>,
}

impl View for SnapshotSearchResponse {
    type V = SnapshotSearchResponseView;

    open spec fn view(&self) -> SnapshotSearchResponseView {
        SnapshotSearchResponseView {
            total: self.total,
            row_count: self.row_count,
            current: self.current,
            rows: self.rows.deep_view(),
        }
    }
}

/// The name and identifier that the appliance proposes for a new snapshot.
#[derive(Debug, Clone, PartialEq, Eq)]
pub struct NewSnapshotResponse {
    pub name: String,
    pub uuid: String,
}

/// Mathematical value of a [`NewSnapshotResponse`].
pub struct NewSnapshotResponseView {
    pub name: Seq<char>,
    pub uuid: Seq<char>,
}

impl View for NewSnapshotResponse {
    type V = NewSnapshotResponseView;

    open spec fn view(&self) -> NewSnapshotResponseView {
        NewSnapshotResponseView { name: self.name@, uuid: self.uuid@ }
    }
}

/// Path of the endpoint that says whether snapshots are supported.
pub const SUPPORTED_PATH: &'static str = "/api/core/snapshots/is_supported/";

/// Path of the endpoint that searches the snapshot list.
pub const SEARCH_PATH: &'static str = "/api/core/snapshots/search";

/// Path of the endpoint that describes a snapshot; the identifier follows it.
pub const GET_PATH: &'static str = "/api/core/snapshots/get/";

/// Path of the endpoint that creates a snapshot.
pub const ADD_PATH: &'static str = "/api/core/snapshots/add/";

/// Path of the endpoint that deletes a snapshot; the identifier follows it.
pub const DELETE_PATH: &'static str = "/api/core/snapshots/del/";

/// Path of the endpoint that activates a snapshot; the identifier follows it.
pub const ACTIVATE_PATH: &'static str = "/api/core/snapshots/activate/";

/// Path of the endpoint that renames a snapshot; the identifier follows it.
pub const SET_PATH: &'static str = "/api/core/snapshots/set/";

/// The call that asks whether the appliance supports snapshots: a `GET`
/// without a body. The answer is a JSON object whose `supported` member is
/// read by [`snapshots_supported`].
pub fn is_snapshots_supported_call(profile: &ApiProfile) -> (call: ApiCall)
    ensures
        call@ == call_to(
            profile@,
            "GET"@,
            SUPPORTED_PATH@,
            None,
            Seq::empty(),
            "Failed to parse response"@,
        ),
        method_named(call@.request.request_type) == Some(Method::Get),
{
    call_endpoint(profile, "GET", SUPPORTED_PATH, None, no_headers(), "Failed to parse response")
}

/// Whether snapshots are supported, given the `supported` member of the
/// appliance's answer: its value where it is present and a boolean, `false`
/// otherwise.
pub fn snapshots_supported(reported: Option<bool>) -> (supported: bool)
    ensures
        supported == (reported == Some(true)),
{
    match reported {
        Some(flag) => flag,
        None => false,
    }
}

/// The call that lists snapshots: a `POST` asking for page `current_page`
/// with `rows_per_page` rows; the response is a [`SnapshotSearchResponse`].
pub fn get_snapshots_call(profile: &ApiProfile, current_page: u32, rows_per_page: u32) -> (call:
    ApiCall)
    ensures
        call@ == call_to(
            profile@,
            "POST"@,
            SEARCH_PATH@,
            Some(search_object(current_page, rows_per_page)),
            Seq::empty(),
            "Failed to parse snapshots"@,
        ),
        method_named(call@.request.request_type) == Some(Method::Post),
{
    proof {
        lemma_method_names();
    }
    call_endpoint(
        profile,
        "POST",
        SEARCH_PATH,
        Some(Payload::search(current_page, rows_per_page)),
        no_headers(),
        "Failed to parse snapshots",
    )
}

/// The call that asks for the name and identifier of a snapshot yet to be
/// made: a `GET` without a body; the response is a [`NewSnapshotResponse`].
pub fn get_new_snapshot_call(profile: &ApiProfile) -> (call: ApiCall)
    ensures
        call@ == call_to(
            profile@,
            "GET"@,
            GET_PATH@,
            None,
            Seq::empty(),
            "Failed to get new snapshot info"@,
        ),
        method_named(call@.request.request_type) == Some(Method::Get),
{
    call_endpoint(profile, "GET", GET_PATH, None, no_headers(), "Failed to get new snapshot info")
}

/// The path and query of the request for one snapshot: the identifier is
/// appended to [`GET_PATH`] as it is, and a fetch mode, where one is given,
/// follows as the query `?fetchmode=..`.
pub open spec fn snapshot_endpoint(uuid: Seq<char>, fetch_mode: Option<Seq<char>>) -> Seq<char> {
    match fetch_mode {
        Some(mode) => GET_PATH@ + uuid + "?fetchmode="@ + mode,
        None => GET_PATH@ + uuid,
    }
}

/// The call that fetches one snapshot: a `GET` without a body; the response
/// is a [`Snapshot`]. A fetch mode such as `copy` asks for the snapshot as the
/// template of a clone.
pub fn get_snapshot_call(profile: &ApiProfile, uuid: &str, fetch_mode: Option<&str>) -> (call:
    ApiCall)
    ensures
        call@ == call_to(
            profile@,
            "GET"@,
            snapshot_endpoint(
                uuid@,
                match fetch_mode {
                    Some(mode) => Some(mode@),
                    None => None,
                },
            ),
            None,
            Seq::empty(),
            "Failed to get snapshot"@,
        ),
        method_named(call@.request.request_type) == Some(Method::Get),
{
    let mut endpoint = String::from_str(GET_PATH);
    endpoint.append(uuid);
    match fetch_mode {
        Some(mode) => {
            endpoint.append("?fetchmode=");
            endpoint.append(mode);
        },
        None => {},
    }
    call_endpoint(profile, "GET", endpoint.as_str(), None, no_headers(), "Failed to get snapshot")
}

/// The call that creates a snapshot named `name`: a `POST` of the name and
/// of the identifier of the snapshot to clone, which is empty where a fresh
/// snapshot is wanted. The response is passed on as it comes.
pub fn add_snapshot_call(profile: &ApiProfile, name: &str, uuid: Option<&str>) -> (call: ApiCall)
    ensures
        call@ == call_to(
            profile@,
            "POST"@,
            ADD_PATH@,
            Some(
                snapshot_object(
                    match uuid {
                        Some(id) => id@,
                        None => Seq::empty(),
                    },
                    name@,
                ),
            ),
            Seq::empty(),
            "Failed to add snapshot"@,
        ),
        method_named(call@.request.request_type) == Some(Method::Post),
{
    proof {
        lemma_method_names();
    }
    let payload = match uuid {
        Some(id) => Payload::snapshot(id, name),
        None => Payload::snapshot("", name),
    };
    proof {
        reveal_strlit("");
        assert(""@ =~= Seq::<char>::empty());
    }
    call_endpoint(
        profile,
        "POST",
        ADD_PATH,
        Some(payload),
        no_headers(),
        "Failed to add snapshot",
    )
}

/// The call that deletes the snapshot `uuid`: a `POST` of the empty object
/// to the delete path followed by the identifier. The response is passed on
/// as it comes.
pub fn delete_snapshot_call(profile: &ApiProfile, uuid: &str) -> (call: ApiCall)
    ensures
        call@ == call_to(
            profile@,
            "POST"@,
            DELETE_PATH@ + uuid@,
            Some(empty_object()),
            Seq::empty(),
            "Failed to delete snapshot"@,
        ),
        method_named(call@.request.request_type) == Some(Method::Post),
{
    proof {
        lemma_method_names();
    }
    let mut endpoint = String::from_str(DELETE_PATH);
    endpoint.append(uuid);
    call_endpoint(
        profile,
        "POST",
        endpoint.as_str(),
        Some(Payload::empty()),
        no_headers(),
        "Failed to delete snapshot",
    )
}

/// The call that activates the snapshot `uuid`: a `POST` of the empty object
/// to the activate path followed by the identifier. The response is passed on
/// as it comes.
pub fn activate_snapshot_call(profile: &ApiProfile, uuid: &str) -> (call: ApiCall)
    ensures
        call@ == call_to(
            profile@,
            "POST"@,
            ACTIVATE_PATH@ + uuid@,
            Some(empty_object()),
            Seq::empty(),
            "Failed to activate snapshot"@,
        ),
        method_named(call@.request.request_type) == Some(Method::Post),
{
    proof {
        lemma_method_names();
    }
    let mut endpoint = String::from_str(ACTIVATE_PATH);
    endpoint.append(uuid);
    call_endpoint(
        profile,
        "POST",
        endpoint.as_str(),
        Some(Payload::empty()),
        no_headers(),
        "Failed to activate snapshot",
    )
}

/// The call that renames the snapshot `uuid` to `name`: a `POST` of both to
/// the set path followed by the identifier. The response is passed on as it
/// comes.
pub fn update_snapshot_call(profile: &ApiProfile, uuid: &str, name: &str) -> (call: ApiCall)
    ensures
        call@ == call_to(
            profile@,
            "POST"@,
            SET_PATH@ + uuid@,
            Some(snapshot_object(uuid@, name@)),
            Seq::empty(),
            "Failed to update snapshot"@,
        ),
        method_named(call@.request.request_type) == Some(Method::Post),
{
    proof {
        lemma_method_names();
    }
    let mut endpoint = String::from_str(SET_PATH);
    endpoint.append(uuid);
    call_endpoint(
        profile,
        "POST",
        endpoint.as_str(),
        Some(Payload::snapshot(uuid, name)),
        no_headers(),
        "Failed to update snapshot",
    )
}

} // verus!
