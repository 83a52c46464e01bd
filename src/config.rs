use vstd::prelude::*;

verus! {

/// The service's production address.
pub const DEFAULT_BASE_URL: &'static str = "https://api.usesmileid.com";

/// The API version used unless another is chosen.
pub const DEFAULT_VERSION: &'static str = "1.0";

/// Seconds that a call may take unless another bound is chosen.
pub const DEFAULT_TIMEOUT_SECS: u64 = 30;

/// Settings of a client: credentials, where the service lives, and how long
/// a call may take.
#[derive(Clone, Debug)]
pub struct Config {
    pub api_key: String,
    pub partner_id: String,
    pub base_url: String,
    pub version: String,
    /// Seconds.
    pub timeout: u64,
}

impl Config {
    /// Settings with the given credentials and the default address, version
    /// and timeout.
    pub fn new(api_key: &str, partner_id: &str) -> (r: Config)
        ensures
            r.api_key@ == api_key@,
            r.partner_id@ == partner_id@,
            r.base_url@ == DEFAULT_BASE_URL@,
            r.version@ == DEFAULT_VERSION@,
            r.timeout == DEFAULT_TIMEOUT_SECS,
    {
        Config {
            api_key: api_key.to_owned(),
            partner_id: partner_id.to_owned(),
            base_url: DEFAULT_BASE_URL.to_owned(),
            version: DEFAULT_VERSION.to_owned(),
            timeout: DEFAULT_TIMEOUT_SECS,
        }
    }

    /// The same settings with another service address.
    pub fn with_base_url(self, base_url: &str) -> (r: Config)
        ensures
            r.base_url@ == base_url@,
            r.api_key == self.api_key,
            r.partner_id == self.partner_id,
            r.version == self.version,
            r.timeout == self.timeout,
    {
        Config { base_url: base_url.to_owned(), ..self }
    }

    /// The same settings with another API version.
    pub fn with_version(self, version: &str) -> (r: Config)
        ensures
            r.version@ == version@,
            r.api_key == self.api_key,
            r.partner_id == self.partner_id,
            r.base_url == self.base_url,
            r.timeout == self.timeout,
    {
        Config { version: version.to_owned(), ..self }
    }

    /// The same settings with another timeout, in seconds.
    pub fn with_timeout(self, timeout: u64) -> (r: Config)
        ensures
            r.timeout == timeout,
            r.api_key == self.api_key,
            r.partner_id == self.partner_id,
            r.base_url == self.base_url,
            r.version == self.version,
    {
        Config { timeout, ..self }
    }
}

} // verus!
