use qb_throttler::config::{
    apply_env, default_env_table, fallback_numeric_keys, load_config, parse_u64_trimmed,
    EnvEntry, EnvPair,
};
use qb_throttler::loglevel::{parse_log_level, resolve_log_level, LogLevel};
use qb_throttler::sampler::{count_sessions, sample_outcome};
use qb_throttler::errors::ClassifiedError;

fn pair(key: &str, value: &str) -> EnvPair {
    EnvPair { key: String::from(key), value: String::from(value) }
}

fn full_env() -> Vec<EnvPair> {
    vec![
        pair("QB_ADDRESS", "http://qb:8080"),
        pair("QB_USERNAME", "admin"),
        pair("QB_PASSWORD", "hunter2"),
        pair("JELLYFIN_ADDR", "http://jf:8096"),
        pair("JELLYFIN_TOKEN", "tok"),
    ]
}

#[test]
fn non_array_bodies_count_as_zero_sessions() {
    // An object, null, or malformed JSON counts exactly as an empty array
    // does, and never fails on a success status.
    assert_eq!(count_sessions(&b"[]".to_vec()), 0);
    assert_eq!(count_sessions(&b"{}".to_vec()), 0);
    assert_eq!(count_sessions(&b"null".to_vec()), 0);
    assert_eq!(count_sessions(&b"[".to_vec()), 0);
    assert_eq!(count_sessions(&b"not json at all".to_vec()), 0);
    assert!(sample_outcome(200, &b"{\"a\":1}".to_vec()).is_ok());
    assert_eq!(sample_outcome(200, &b"garbage".to_vec()).unwrap(), 0);
}

#[test]
fn array_bodies_count_their_elements() {
    assert_eq!(count_sessions(&b"[{\"Id\":\"x\"}]".to_vec()), 1);
    assert_eq!(count_sessions(&b"[1,2,3]".to_vec()), 3);
}

#[test]
fn non_success_sample_status_is_transient() {
    let e = sample_outcome(500, &b"[]".to_vec()).err().unwrap();
    assert!(matches!(e, ClassifiedError::Transient { status: Some(500), .. }));
    assert_eq!(e.message(), "unexpected sample response status 500");
    let e = sample_outcome(404, &b"[]".to_vec()).err().unwrap();
    assert!(matches!(e, ClassifiedError::Transient { status: Some(404), .. }));
}

#[test]
fn empty_required_values_count_as_missing() {
    let mut env = full_env();
    env.push(pair("QB_USERNAME", ""));
    let missing = load_config(&env, &Vec::new()).err().unwrap();
    assert_eq!(missing, vec![String::from("QB_USERNAME")]);
}

#[test]
fn zero_intervals_fall_back_to_their_defaults() {
    let mut env = full_env();
    env.push(pair("QB_THROTTLER_POLL_FREQ", "0"));
    env.push(pair("JELLYFIN_ACTIVE_WITHIN_SECS", "0"));
    let c = load_config(&env, &Vec::new()).unwrap();
    assert_eq!(c.poll_time_secs, 5);
    assert_eq!(c.jellyfin_active_within_secs, 5);
}

#[test]
fn empty_numeric_setting_defaults_without_blocking_startup() {
    let mut env = full_env();
    env.push(pair("QB_THROTTLER_POLL_FREQ", ""));
    let c = load_config(&env, &Vec::new()).unwrap();
    assert_eq!(c.poll_time_secs, 5);
}

#[test]
fn fallback_numeric_settings_are_reported_in_table_order() {
    assert!(fallback_numeric_keys(&full_env(), &Vec::new()).is_empty());
    let mut env = full_env();
    env.push(pair("QB_THROTTLER_POLL_FREQ", "abc"));
    assert_eq!(
        fallback_numeric_keys(&env, &Vec::new()),
        vec![String::from("QB_THROTTLER_POLL_FREQ")]
    );
    let mut env = full_env();
    env.push(pair("JELLYFIN_ACTIVE_WITHIN_SECS", "0"));
    env.push(pair("QB_THROTTLER_POLL_FREQ", "-2"));
    assert_eq!(
        fallback_numeric_keys(&env, &Vec::new()),
        vec![
            String::from("JELLYFIN_ACTIVE_WITHIN_SECS"),
            String::from("QB_THROTTLER_POLL_FREQ"),
        ]
    );
}

#[test]
fn missing_settings_are_reported_per_key() {
    let r = load_config(&Vec::new(), &Vec::new());
    let missing = r.err().unwrap();
    assert_eq!(
        missing,
        vec![
            String::from("QB_ADDRESS"),
            String::from("QB_USERNAME"),
            String::from("QB_PASSWORD"),
            String::from("JELLYFIN_ADDR"),
            String::from("JELLYFIN_TOKEN"),
        ]
    );
}

#[test]
fn full_environment_loads_with_defaults() {
    let c = load_config(&full_env(), &Vec::new()).unwrap();
    assert_eq!(c.qb_address, "http://qb:8080");
    assert_eq!(c.qb_username, "admin");
    assert_eq!(c.qb_password, "hunter2");
    assert_eq!(c.jellyfin_address, "http://jf:8096");
    assert_eq!(c.jellyfin_api_token, "tok");
    assert_eq!(c.jellyfin_active_within_secs, 5);
    assert_eq!(c.poll_time_secs, 5);
}

#[test]
fn variable_file_overrides_process_environment() {
    let mut dotenv = vec![pair("QB_ADDRESS", "http://other:9090")];
    dotenv.push(pair("QB_THROTTLER_POLL_FREQ", " 30 "));
    let c = load_config(&full_env(), &dotenv).unwrap();
    assert_eq!(c.qb_address, "http://other:9090");
    assert_eq!(c.poll_time_secs, 30);
}

#[test]
fn invalid_numeric_setting_falls_back_to_default() {
    let mut env = full_env();
    env.push(pair("JELLYFIN_ACTIVE_WITHIN_SECS", "soon"));
    env.push(pair("QB_THROTTLER_POLL_FREQ", "1e3"));
    let c = load_config(&env, &Vec::new()).unwrap();
    assert_eq!(c.jellyfin_active_within_secs, 5);
    assert_eq!(c.poll_time_secs, 5);
}

#[test]
fn unrecognized_keys_are_ignored() {
    let mut env = full_env();
    env.push(pair("UNRELATED", "whatever"));
    assert!(load_config(&env, &Vec::new()).is_ok());
}

#[test]
fn later_occurrences_override_earlier_ones() {
    let mut table = default_env_table();
    let pairs = vec![pair("QB_ADDRESS", "first"), pair("QB_ADDRESS", "second")];
    apply_env(&mut table, &pairs);
    let entry: &EnvEntry = &table[0];
    assert_eq!(entry.key, "QB_ADDRESS");
    assert_eq!(entry.value.as_ref().unwrap(), "second");
}

#[test]
fn apply_env_leaves_unnamed_entries_alone() {
    let mut table = default_env_table();
    apply_env(&mut table, &vec![pair("QB_USERNAME", "admin")]);
    assert_eq!(table[1].value.as_ref().unwrap(), "admin");
    assert!(table[0].value.is_none());
    assert_eq!(table[5].value.as_ref().unwrap(), "5");
}

#[test]
fn parses_plain_and_signed_numerals() {
    assert_eq!(parse_u64_trimmed(&String::from("123")), Some(123));
    assert_eq!(parse_u64_trimmed(&String::from(" +42\t")), Some(42));
    assert_eq!(parse_u64_trimmed(&String::from("0")), Some(0));
    assert_eq!(
        parse_u64_trimmed(&String::from("18446744073709551615")),
        Some(u64::MAX)
    );
}

#[test]
fn rejects_malformed_numerals() {
    assert_eq!(parse_u64_trimmed(&String::from("")), None);
    assert_eq!(parse_u64_trimmed(&String::from("   ")), None);
    assert_eq!(parse_u64_trimmed(&String::from("+")), None);
    assert_eq!(parse_u64_trimmed(&String::from("-1")), None);
    assert_eq!(parse_u64_trimmed(&String::from("12a")), None);
    assert_eq!(parse_u64_trimmed(&String::from("1 2")), None);
    assert_eq!(parse_u64_trimmed(&String::from("18446744073709551616")), None);
}

#[test]
fn level_names_parse_in_any_ascii_case() {
    assert_eq!(parse_log_level(&b"error".to_vec()), Some(LogLevel::Error));
    assert_eq!(parse_log_level(&b"ERROR".to_vec()), Some(LogLevel::Error));
    assert_eq!(parse_log_level(&b"Warn".to_vec()), Some(LogLevel::Warn));
    assert_eq!(parse_log_level(&b"INFO".to_vec()), Some(LogLevel::Info));
    assert_eq!(parse_log_level(&b"debug".to_vec()), Some(LogLevel::Debug));
    assert_eq!(parse_log_level(&b"TrAcE".to_vec()), Some(LogLevel::Trace));
    assert_eq!(parse_log_level(&b"bogus".to_vec()), None);
    assert_eq!(parse_log_level(&b"".to_vec()), None);
}

#[test]
fn numeric_levels_run_from_severe_to_verbose() {
    assert_eq!(parse_log_level(&b"1".to_vec()), Some(LogLevel::Error));
    assert_eq!(parse_log_level(&b"2".to_vec()), Some(LogLevel::Warn));
    assert_eq!(parse_log_level(&b"3".to_vec()), Some(LogLevel::Info));
    assert_eq!(parse_log_level(&b"4".to_vec()), Some(LogLevel::Debug));
    assert_eq!(parse_log_level(&b"5".to_vec()), Some(LogLevel::Trace));
    assert_eq!(parse_log_level(&b"0".to_vec()), None);
    assert_eq!(parse_log_level(&b"6".to_vec()), None);
}

#[test]
fn verbosity_defaults_to_info_and_file_overrides_env() {
    assert_eq!(resolve_log_level(&None, &None), LogLevel::Info);
    assert_eq!(
        resolve_log_level(&Some(String::from("warn")), &None),
        LogLevel::Warn
    );
    assert_eq!(
        resolve_log_level(&Some(String::from("warn")), &Some(String::from("error"))),
        LogLevel::Error
    );
    assert_eq!(
        resolve_log_level(&Some(String::from("warn")), &Some(String::from("nonsense"))),
        LogLevel::Warn
    );
    assert_eq!(
        resolve_log_level(&Some(String::from("nonsense")), &None),
        LogLevel::Info
    );
}
