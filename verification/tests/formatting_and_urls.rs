use qb_throttler::config::Config;
use qb_throttler::numerals::format_u64;
use qb_throttler::requests::{login_url, media_auth_header, sessions_url, upload_limit_url};

fn sample_config() -> Config {
    Config {
        qb_address: String::from("http://qb:8080"),
        qb_username: String::from("admin"),
        qb_password: String::from("hunter2"),
        jellyfin_address: String::from("http://jf:8096"),
        jellyfin_api_token: String::from("tok"),
        jellyfin_active_within_secs: 5,
        poll_time_secs: 5,
    }
}

#[test]
fn numbers_format_as_plain_decimals() {
    assert_eq!(format_u64(0), "0");
    assert_eq!(format_u64(5), "5");
    assert_eq!(format_u64(10), "10");
    assert_eq!(format_u64(105), "105");
    assert_eq!(format_u64(65535), "65535");
    assert_eq!(format_u64(u64::MAX), "18446744073709551615");
}

#[test]
fn torrent_client_urls_extend_the_base_address() {
    let config = sample_config();
    assert_eq!(login_url(&config), "http://qb:8080/api/v2/auth/login");
    assert_eq!(
        upload_limit_url(&config),
        "http://qb:8080/api/v2/transfer/setUploadLimit"
    );
}

#[test]
fn sessions_url_carries_the_configured_window() {
    let mut config = sample_config();
    assert_eq!(
        sessions_url(&config),
        "http://jf:8096/Sessions?activeWithinSeconds=5"
    );
    config.jellyfin_active_within_secs = 120;
    assert_eq!(
        sessions_url(&config),
        "http://jf:8096/Sessions?activeWithinSeconds=120"
    );
}

#[test]
fn media_auth_header_carries_the_token() {
    assert_eq!(media_auth_header(&sample_config()), "MediaBrowser Token=tok");
}
