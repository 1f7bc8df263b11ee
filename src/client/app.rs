//! Requests of the app-control and asset operations.
use vstd::prelude::*;
use crate::codec::ToJson;
use crate::json::JsonV;
use crate::models::app::{DownloadAssetInput, DownloadAssetInputV, FocusAppInput};
use super::{empty_object, join, ApiRequest, BeeperClient, HttpMethod};

verus! {

impl BeeperClient {
    /// Focuses the desktop app, optionally navigating somewhere:
    /// `POST /v1/focus` with the input as body, or `{}` when there is none.
    pub fn focus_app(&self, input: Option<FocusAppInput>) -> (r: ApiRequest)
        ensures
            r.method == HttpMethod::Post,
            r.url@ == self@.base_url + "/v1/focus"@,
            r.authorization@ == "Bearer "@ + self@.token,
            r.body matches Some(b) && b@ == match input {
                Some(i) => FocusAppInput::encode(i.deep_view()),
                None => JsonV::Object(Seq::empty()),
            },
    {
        let url = join(self.get_base_url(), "/v1/focus");
        let body = match input {
            Some(i) => i.to_json(),
            None => empty_object(),
        };
        self.request(HttpMethod::Post, url, Some(body))
    }

    /// Downloads an asset to the device running the desktop app:
    /// `POST /v1/assets/download` with `{"url": url}`.
    pub fn download_asset(&self, url: &str) -> (r: ApiRequest)
        ensures
            r.method == HttpMethod::Post,
            r.url@ == self@.base_url + "/v1/assets/download"@,
            r.authorization@ == "Bearer "@ + self@.token,
            r.body matches Some(b) && b@ == DownloadAssetInput::encode(
                DownloadAssetInputV { url: url@ },
            ),
    {
        let endpoint_url = join(self.get_base_url(), "/v1/assets/download");
        let input = DownloadAssetInput { url: String::from_str(url) };
        self.request(HttpMethod::Post, endpoint_url, Some(input.to_json()))
    }
}

} // verus!
