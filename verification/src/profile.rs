//! The connection profile of one appliance and the URLs built from it.

use vstd::prelude::*;
use crate::error::{ApiError, ApiErrorView, ConfigError};
use crate::text::{decimal, decimal_string};

verus! {

/// Where an appliance's management API lives and the credentials it takes.
/// The profile is owned by whoever stores it; nothing here changes it.
#[derive(Debug, Clone, PartialEq, Eq)]
pub struct ApiProfile {
    pub api_url: String,
    pub port: u16,
    pub api_key: String,
    pub api_secret: String,
}

/// Mathematical value of an [`ApiProfile`].
pub struct ApiProfileView {
    pub api_url: Seq<char>,
    pub port: u16,
    pub api_key: Seq<char>,
    pub api_secret: Seq<char>,
}

impl View for ApiProfile {
    type V = ApiProfileView;

    open spec fn view(&self) -> ApiProfileView {
        ApiProfileView {
            api_url: self.api_url@,
            port: self.port,
            api_key: self.api_key@,
            api_secret: self.api_secret@,
        }
    }
}

impl DeepView for ApiProfile {
    type V = ApiProfileView;

    open spec fn deep_view(&self) -> ApiProfileView {
        self@
    }
}

/// The profile to call with, or `MissingProfile` where none is stored. With
/// no profile there is nothing to build a request from, so no request is
/// made.
pub fn require_profile(stored: Option<ApiProfile>) -> (outcome: Result<ApiProfile, ApiError>)
    ensures
        match stored {
            Some(profile) => outcome == Ok::<ApiProfile, ApiError>(profile),
            None => outcome matches Err(e) && e@ == ApiErrorView::Config(
                ConfigError::MissingProfile,
            ),
        },
{
    match stored {
        Some(profile) => Ok(profile),
        None => Err(ApiError::Config(ConfigError::MissingProfile)),
    }
}

/// The text of the URL of `endpoint` on the appliance at `api_url`, port
/// `port`: base URL, a colon, the port in decimal, then the endpoint path as
/// given.
pub open spec fn api_url_text(api_url: Seq<char>, port: u16, endpoint: Seq<char>) -> Seq<char> {
    api_url + seq![':'] + decimal(port as nat) + endpoint
}

/// The URL of `endpoint` for the appliance that `api_info` describes.
pub fn build_api_url(api_info: &ApiProfile, endpoint: &str) -> (url: String)
    ensures
        url@ == api_url_text(api_info.api_url@, api_info.port, endpoint@),
{
    let mut url = api_info.api_url.clone();
    url.push(':');
    let port = decimal_string(api_info.port as u64);
    url.append(port.as_str());
    url.append(endpoint);
    url
}

} // verus!
