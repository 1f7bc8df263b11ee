//! Requests of the account operations.
use vstd::prelude::*;
use super::{join, ApiRequest, BeeperClient, HttpMethod};

verus! {

impl BeeperClient {
    /// Lists all connected messaging accounts: `GET /v1/accounts`.
    pub fn get_accounts(&self) -> (r: ApiRequest)
        ensures
            r.method == HttpMethod::Get,
            r.url@ == self@.base_url + "/v1/accounts"@,
            r.authorization@ == "Bearer "@ + self@.token,
            r.body is None,
    {
        let url = join(self.get_base_url(), "/v1/accounts");
        self.request(HttpMethod::Get, url, None)
    }
}

} // verus!
