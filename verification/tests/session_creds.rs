use qb_throttler::config::Config;
use qb_throttler::session::{login_outcome, QBCreds};

fn sample_config() -> Config {
    Config {
        qb_address: String::from("http://qb:8080"),
        qb_username: String::from("admin"),
        qb_password: String::from("hunter2"),
        jellyfin_address: String::from("http://jf:8096"),
        jellyfin_api_token: String::from("tok"),
        jellyfin_active_within_secs: 5,
        poll_time_secs: 5,
    }
}

#[test]
fn creds_come_from_the_configuration() {
    let creds = QBCreds::from(&sample_config());
    assert_eq!(creds.username, "admin");
    assert_eq!(creds.password, "hunter2");
}

#[test]
fn form_body_encodes_both_fields_in_order() {
    let creds = QBCreds::from(&sample_config());
    assert_eq!(creds.form_body(), "username=admin&password=hunter2");
}

#[test]
fn login_keeps_the_cookie_bytes_verbatim() {
    let cred = login_outcome(200, Some(b"SID=abc; HttpOnly".to_vec())).unwrap();
    assert_eq!(cred.token, b"SID=abc; HttpOnly".to_vec());
}

#[test]
fn tab_is_acceptable_header_text() {
    assert!(login_outcome(200, Some(b"a\tb".to_vec())).is_ok());
    assert!(login_outcome(200, Some(b"a\nb".to_vec())).is_err());
}
