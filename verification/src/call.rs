//! Calls against the endpoints of one appliance.
//!
//! An [`ApiCall`] is the request of one operation together with the words
//! that introduce the report of an undecodable answer. Every call goes to the
//! appliance of a connection profile, authenticates with the profile's key
//! and secret, and has the default deadline.

use vstd::prelude::*;
use crate::error::{malformed_body, malformed_text, ApiError, ApiErrorView, DecodeErrorView};
use crate::gateway::{ApiRequest, ApiRequestView, Header, HeaderView};
use crate::payload::{MemberView, Payload};
use crate::profile::{api_url_text, build_api_url, ApiProfile, ApiProfileView};

verus! {

/// The deadline of every call to the appliance, in seconds.
pub const DEFAULT_TIMEOUT_SECONDS: u64 = 30;

/// One operation against the appliance: the request to make, and what is
/// being decoded from the response, for the report of a decoding failure.
#[derive(Debug, Clone, PartialEq, Eq)]
pub struct ApiCall {
    pub request: ApiRequest,
    pub decode_context: String,
}

/// Mathematical value of an [`ApiCall`].
pub struct ApiCallView {
    pub request: ApiRequestView,
    pub decode_context: Seq<char>,
}

impl View for ApiCall {
    type V = ApiCallView;

    open spec fn view(&self) -> ApiCallView {
        ApiCallView { request: self.request@, decode_context: self.decode_context@ }
    }
}

/// The call to `endpoint` of the appliance that `profile` describes: the URL
/// is built from the profile, the profile's key and secret authenticate the
/// call, and the default deadline applies.
pub open spec fn call_to(
    profile: ApiProfileView,
    request_type: Seq<char>,
    endpoint: Seq<char>,
    payload: Option<Seq<MemberView>>,
    headers: Seq<HeaderView>,
    decode_context: Seq<char>,
) -> ApiCallView {
    ApiCallView {
        request: ApiRequestView {
            request_type,
            url: api_url_text(profile.api_url, profile.port, endpoint),
            payload,
            headers,
            timeout_seconds: Some(DEFAULT_TIMEOUT_SECONDS),
            api_key: Some(profile.api_key),
            api_secret: Some(profile.api_secret),
        },
        decode_context,
    }
}

/// The empty list of extra headers.
pub fn no_headers() -> (headers: Vec<Header>)
    ensures
        headers.deep_view() == Seq::<HeaderView>::empty(),
{
    let headers: Vec<Header> = Vec::new();
    assert(headers.deep_view() =~= Seq::<HeaderView>::empty());
    headers
}

/// Builds the call to one endpoint.
pub fn call_endpoint(
    profile: &ApiProfile,
    request_type: &str,
    endpoint: &str,
    payload: Option<Payload>,
    headers: Vec<Header>,
    decode_context: &str,
) -> (call: ApiCall)
    ensures
        call@ == call_to(
            profile@,
            request_type@,
            endpoint@,
            payload.deep_view(),
            headers.deep_view(),
            decode_context@,
        ),
{
    ApiCall {
        request: ApiRequest {
            request_type: String::from_str(request_type),
            url: build_api_url(profile, endpoint),
            payload,
            headers,
            timeout_seconds: Some(DEFAULT_TIMEOUT_SECONDS),
            api_key: Some(profile.api_key.clone()),
            api_secret: Some(profile.api_secret.clone()),
        },
        decode_context: String::from_str(decode_context),
    }
}

impl ApiCall {
    /// The failure to report when the response of this call cannot be
    /// decoded; `cause` is what the decoder reported.
    pub fn decode_failure(&self, cause: &str) -> (error: ApiError)
        ensures
            error@ == ApiErrorView::Decode(
                DecodeErrorView::MalformedBody {
                    detail: malformed_text(self.decode_context@, cause@),
                },
            ),
    {
        malformed_body(self.decode_context.as_str(), cause)
    }
}

} // verus!
