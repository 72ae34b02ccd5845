use vstd::prelude::*;

verus! {

/// Process configuration: the OAuth client credentials and the address of
/// the session cache, each absent when not configured. The values come from
/// the process environment, which the caller reads and hands in.
pub struct Config {
    pub oauth_github_client_id: Option<String>,
    pub oauth_github_client_secret: Option<String>,
    pub redis_url: Option<String>,
}

impl Config {
    /// Assembles the configuration from the values read from the
    /// environment.
    pub fn load(
        oauth_github_client_id: Option<String>,
        oauth_github_client_secret: Option<String>,
        redis_url: Option<String>,
    ) -> (c: Config)
        ensures
            c.oauth_github_client_id == oauth_github_client_id,
            c.oauth_github_client_secret == oauth_github_client_secret,
            c.redis_url == redis_url,
    {
        Config { oauth_github_client_id, oauth_github_client_secret, redis_url }
    }
}

} // verus!
