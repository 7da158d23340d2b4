use vstd::prelude::*;
use vstd::string::StringExecFns;
use crate::config::Config;
use crate::numerals::{decimal_chars, format_u64};

verus! {

/// The torrent client's login endpoint.
pub fn login_url(config: &Config) -> (r: String)
    ensures
        r@ == config.qb_address@ + "/api/v2/auth/login"@,
{
    let mut r = config.qb_address.clone();
    r.append("/api/v2/auth/login");
    r
}

/// The torrent client's set-upload-limit endpoint.
pub fn upload_limit_url(config: &Config) -> (r: String)
    ensures
        r@ == config.qb_address@ + "/api/v2/transfer/setUploadLimit"@,
{
    let mut r = config.qb_address.clone();
    r.append("/api/v2/transfer/setUploadLimit");
    r
}

/// The media server's sessions endpoint, asking for the sessions active
/// within the configured trailing window.
pub fn sessions_url(config: &Config) -> (r: String)
    ensures
        r@ == config.jellyfin_address@ + "/Sessions?activeWithinSeconds="@ + decimal_chars(
            config.jellyfin_active_within_secs as int,
        ),
{
    let mut r = config.jellyfin_address.clone();
    r.append("/Sessions?activeWithinSeconds=");
    let window = format_u64(config.jellyfin_active_within_secs);
    r.append(window.as_str());
    proof {
        assert(r@ =~= config.jellyfin_address@ + "/Sessions?activeWithinSeconds="@
            + decimal_chars(config.jellyfin_active_within_secs as int));
    }
    r
}

/// The media server's authorization header value, carrying the API token.
pub fn media_auth_header(config: &Config) -> (r: String)
    ensures
        r@ == "MediaBrowser Token="@ + config.jellyfin_api_token@,
{
    let mut r = String::from_str("MediaBrowser Token=");
    r.append(config.jellyfin_api_token.as_str());
    r
}

} // verus!
