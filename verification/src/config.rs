use vstd::prelude::*;

verus! {

/// Where the chat service is reached.
pub const ZULIP_URL: &'static str = "https://zulip.patagona.de";

/// Where the code-hosting service's API is reached.
pub const GITHUB_URL: &'static str = "https://api.github.com";

/// Credentials and scope, as read from the user's configuration file.
pub struct Config {
    pub zulip_user: String,
    pub zulip_token: String,
    pub github_user: String,
    pub github_password: String,
    pub organisation: String,
}

} // verus!
