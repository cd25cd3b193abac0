use base64::Engine;
use lcu_data::process_info::{get_arg, get_auth_info, parse_u16, ProcessInfoError};

#[test]
fn parse_u16_accepts_ports() {
    assert_eq!(parse_u16("0"), Some(0));
    assert_eq!(parse_u16("54321"), Some(54321));
    assert_eq!(parse_u16("65535"), Some(65535));
}

#[test]
fn parse_u16_rejects_non_ports() {
    assert_eq!(parse_u16(""), None);
    assert_eq!(parse_u16("65536"), None);
    assert_eq!(parse_u16("99999999999999999999"), None);
    assert_eq!(parse_u16("12a"), None);
    assert_eq!(parse_u16("-1"), None);
}

#[test]
fn get_arg_finds_token_and_strips_prefix() {
    let args = "--foo=1 --riotclient-app-port=50012 --bar=2";
    assert_eq!(
        get_arg("--riotclient-app-port=", args).unwrap(),
        "50012".to_string()
    );
}

#[test]
fn get_arg_missing_prefix_is_argument_not_found() {
    let args = "--foo=1 --bar=2";
    assert_eq!(
        get_arg("--riotclient-app-port=", args).unwrap_err(),
        ProcessInfoError::ArgumentNotFound("--riotclient-app-port=".to_string())
    );
}

fn full_args() -> String {
    [
        "/opt/game/LeagueClientUx",
        "--riotclient-app-port=50012",
        "--riotclient-auth-token=abc",
        "--app-port=50013",
        "--remoting-auth-token=xyz",
    ]
    .join(" ")
}

#[test]
fn auth_info_derives_ports_and_encoded_tokens() {
    let info = get_auth_info(full_args()).unwrap();
    assert_eq!(info.port, 50012);
    assert_eq!(info.remoting_port, 50013);
    // base64("riot:abc") and base64("riot:xyz"): the secrets are realm-
    // prefixed and encoded, never handed back raw.
    assert_eq!(info.token, "cmlvdDphYmM=".to_string());
    assert_eq!(info.remoting_token, "cmlvdDp4eXo=".to_string());
    assert_eq!(
        info.token,
        base64::engine::general_purpose::STANDARD.encode("riot:abc")
    );
}

#[test]
fn auth_info_missing_argument_names_its_prefix() {
    let args = "--riotclient-app-port=50012 --app-port=50013".to_string();
    assert_eq!(
        get_auth_info(args).unwrap_err(),
        ProcessInfoError::ArgumentNotFound("--riotclient-auth-token=".to_string())
    );
}

#[test]
fn client_info_without_client_process_is_unavailable() {
    // No game client runs where this test runs, so the process scan
    // comes back empty.
    assert_eq!(
        lcu_data::process_info::get_lcu_client_info().unwrap_err(),
        ProcessInfoError::ProcessNotAvailable
    );
}

#[test]
fn auth_info_non_numeric_port_counts_as_not_found() {
    let args = full_args().replace("50012", "fifty");
    assert_eq!(
        get_auth_info(args).unwrap_err(),
        ProcessInfoError::ArgumentNotFound("--riotclient-app-port=".to_string())
    );
}
