//! Power control of the appliance.

use vstd::prelude::*;
use crate::call::{call_endpoint, call_to, ApiCall};
use crate::gateway::{lemma_method_names, method_named, Header, HeaderView, Method};
use crate::payload::{empty_object, Payload};
use crate::profile::ApiProfile;

verus! {

/// The appliance's answer to a reboot request.
#[derive(Debug, Clone, PartialEq, Eq)]
pub struct RebootResponse {
    pub status: String,
}

/// Mathematical value of a [`RebootResponse`].
pub struct RebootResponseView {
    pub status: Seq<char>,
}

impl View for RebootResponse {
    type V = RebootResponseView;

    open spec fn view(&self) -> RebootResponseView {
        RebootResponseView { status: self.status@ }
    }
}

/// Path of the endpoint that reboots the appliance.
pub const REBOOT_PATH: &'static str = "/api/core/system/reboot";

/// The call that reboots the appliance: a `POST` of the empty object, marked
/// as JSON by an explicit content type; the response is a
/// [`RebootResponse`].
pub fn reboot_firewall_call(profile: &ApiProfile) -> (call: ApiCall)
    ensures
        call@ == call_to(
            profile@,
            "POST"@,
            REBOOT_PATH@,
            Some(empty_object()),
            seq![HeaderView { name: "content-type"@, value: "application/json"@ }],
            "Failed to parse response"@,
        ),
        method_named(call@.request.request_type) == Some(Method::Post),
{
    proof {
        lemma_method_names();
    }
    let mut headers: Vec<Header> = Vec::new();
    headers.push(
        Header {
            name: String::from_str("content-type"),
            value: String::from_str("application/json"),
        },
    );
    assert(headers.deep_view() =~= seq![
        HeaderView { name: "content-type"@, value: "application/json"@ },
    ]);
    call_endpoint(
        profile,
        "POST",
        REBOOT_PATH,
        Some(Payload::empty()),
        headers,
        "Failed to parse response",
    )
}

} // verus!
