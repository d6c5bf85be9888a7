use vstd::prelude::*;

verus! {

/// The options of the connector.
pub struct SentinelConfig {
    /// REST root, without a trailing slash
    pub base_uri: String,
    /// websocket URL
    pub ws_uri: String,
    /// bearer credential; treat as secret
    pub access_token: String,
    /// bound of each capability history
    pub max_history: usize,
    /// interval between ping frames in milliseconds; no pings without it
    pub ping_interval: Option<u64>,
}

impl SentinelConfig {
    pub fn new(
        base_uri: String,
        ws_uri: String,
        access_token: String,
        max_history: usize,
        ping_interval: Option<u64>,
    ) -> (r: Self)
        ensures
            r.base_uri == base_uri,
            r.ws_uri == ws_uri,
            r.access_token == access_token,
            r.max_history == max_history,
            r.ping_interval == ping_interval,
    {
        SentinelConfig { base_uri, ws_uri, access_token, max_history, ping_interval }
    }

    /// The bearer credential.
    pub fn access_token(&self) -> (r: &str)
        ensures
            r@ == self.access_token@,
    {
        self.access_token.as_str()
    }
}

} // verus!
