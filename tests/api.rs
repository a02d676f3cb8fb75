use std::path::PathBuf;
use trmnl_server::api::{authorize_image_request, decimal, parse_u64, display_response, preview_index, setup_response, DisplayHeaders};
use trmnl_server::config::{AppConfig, AppDeviceConfig, AppError, AppServerConfig, AppState};
use trmnl_server::dto::SpecialFunction;

const FILENAME: &str = "39bf95b5a576efb89503cf3ed2bafb5a8fb7ac8f12db7bf9164442abb7fbacdd.bmp";

fn device(mac: &str, friendly_id: &str, api_key: &str, expiry: &str) -> AppDeviceConfig {
    AppDeviceConfig {
        mac_address: mac.to_string(),
        friendly_id: friendly_id.to_string(),
        api_key: api_key.to_string(),
        setup_expiry: expiry.to_string(),
    }
}

fn state() -> AppState {
    AppState {
        server_config: AppServerConfig {
            listen: "0.0.0.0:9080".to_string(),
            config_path: PathBuf::from("config.toml"),
        },
        config: AppConfig {
            devices: Some(vec![
                device("fake_mac_address", "fake_friendly_id", "fake_api_key", "9999-01-01T00:00:00Z"),
                device(
                    "fake_mac_address_expired_setup",
                    "fake_friendly_id_expired",
                    "fake_api_key_expired",
                    "2000-01-01T00:00:00Z",
                ),
            ]),
            base_url: "http://example.localhost".to_string(),
            setup_image_path: "src/display/blank.bmp".to_string(),
            display_image_timeout: 60,
            templates_path: PathBuf::from("templates"),
            fonts_path: PathBuf::from("fonts"),
            default_context_path: PathBuf::from("templates/default.json"),
        },
    }
}

fn headers() -> DisplayHeaders {
    DisplayHeaders {
        access_token: Some("fake_api_key".to_string()),
        id: Some("fake_ID".to_string()),
        refresh_rate: Some("fake_Refresh-Rate".to_string()),
        battery_voltage: Some("fake_Battery-Voltage".to_string()),
        fw_version: Some("fake_FW-Version".to_string()),
        rssi: Some("fake_RSSI".to_string()),
        special_function: Some("fake_Special-Function".to_string()),
    }
}

fn message(e: AppError) -> (u16, String) {
    (e.status_code(), e.to_string())
}

#[test]
fn it_should_return_display_api_response() {
    let resp = display_response(&state(), &headers(), 1234567890).unwrap_or_else(|_| panic!("response"));
    assert_eq!(resp.filename.as_deref(), Some(FILENAME));
    assert_eq!(
        resp.image_url.as_deref(),
        Some(
            "http://example.localhost/display/39bf95b5a576efb89503cf3ed2bafb5a8fb7ac8f12db7bf9164442abb7fbacdd.bmp?friendly-id=fake_friendly_id&timestamp=1234567890"
        )
    );
    assert_eq!(resp.image_url_timeout, Some(60));
    assert_eq!(resp.refresh_rate, 3600);
    assert_eq!(resp.special_function, SpecialFunction::Sleep);
    assert_eq!(resp.special_function.to_string(), "sleep");
    assert_eq!(resp.status, 0);
}

#[test]
fn display_check_in_needs_headers_and_a_known_key() {
    let mut h = headers();
    h.refresh_rate = None;
    h.rssi = None;
    let e = display_response(&state(), &h, 1).err().unwrap();
    assert_eq!(message(e), (400, "Validation error: missing Refresh-Rate header".to_string()));
    let mut h = headers();
    h.access_token = Some("unknown".to_string());
    let e = display_response(&state(), &h, 1).err().unwrap();
    assert_eq!(message(e), (500, "Unexpected error: Failed to get device config".to_string()));
    let mut bad = state();
    bad.config.base_url = "not a url".to_string();
    let e = display_response(&bad, &headers(), 1).err().unwrap();
    assert_eq!(message(e), (500, "Unexpected error: invalid base url, not a url".to_string()));
}

#[test]
fn image_request_with_issued_filename_is_granted() {
    let g = authorize_image_request(
        &state(),
        FILENAME,
        &Some("fake_friendly_id".to_string()),
        &Some("1234567890".to_string()),
        1234567890 + 60,
    )
    .unwrap_or_else(|_| panic!("granted"));
    assert_eq!(g.issued_at, 1234567890);
    assert_eq!(g.template, "test.svg.jinja");
    assert_eq!(g.device.api_key, "fake_api_key");
}

#[test]
fn image_request_refusals() {
    let s = state();
    let fid = Some("fake_friendly_id".to_string());
    let ts = Some("1234567890".to_string());
    let e = authorize_image_request(&s, FILENAME, &None, &ts, 0).err().unwrap();
    assert_eq!(message(e), (400, "Validation error: missing friendly-id query param".to_string()));
    let e = authorize_image_request(&s, FILENAME, &fid, &None, 0).err().unwrap();
    assert_eq!(message(e), (400, "Validation error: missing timestamp query param".to_string()));
    let e = authorize_image_request(&s, FILENAME, &fid, &Some("12x".to_string()), 0).err().unwrap();
    assert_eq!(message(e), (400, "Validation error: invalid timestamp query param".to_string()));
    let e = authorize_image_request(&s, FILENAME, &Some("nobody".to_string()), &ts, 0).err().unwrap();
    assert_eq!(message(e), (500, "Unexpected error: Failed to get device config".to_string()));
    let e = authorize_image_request(&s, "test.bmp", &fid, &ts, 1234567890).err().unwrap();
    assert_eq!(message(e), (401, "Authorization error: invalid filename".to_string()));
    let e = authorize_image_request(&s, FILENAME, &fid, &Some("1234567891".to_string()), 1234567891).err().unwrap();
    assert_eq!(message(e), (401, "Authorization error: invalid filename".to_string()));
    let e = authorize_image_request(&s, FILENAME, &fid, &ts, 1234567889).err().unwrap();
    assert_eq!(message(e), (500, "Unexpected error: failed to get elapsed time".to_string()));
    let e = authorize_image_request(&s, FILENAME, &fid, &ts, 1234567890 + 61).err().unwrap();
    assert_eq!(message(e), (401, "Authorization error: image expired".to_string()));
}

#[test]
fn decimal_digits() {
    assert_eq!(decimal(0), "0");
    assert_eq!(decimal(1234567890), "1234567890");
    assert_eq!(decimal(u64::MAX), u64::MAX.to_string());
}

#[test]
fn it_should_succeed_setup_request() {
    let resp = setup_response(&state(), &Some("fake_mac_address".to_string()), &Some("test".to_string()), 1234567890, 0)
        .unwrap_or_else(|_| panic!("setup"));
    assert_eq!(resp.status, 200);
    assert_eq!(resp.api_key.as_deref(), Some("fake_api_key"));
    assert_eq!(resp.friendly_id.as_deref(), Some("fake_friendly_id"));
    assert_eq!(resp.image_url.as_deref(), Some("http://example.localhost/setup_image.bmp"));
    assert_eq!(resp.message, "Success");
}

#[test]
fn it_should_error_setup_request_with_invalid_mac() {
    let resp = setup_response(&state(), &Some("invalid_mac_address".to_string()), &Some("test".to_string()), 1234567890, 0)
        .unwrap_or_else(|_| panic!("setup"));
    assert_eq!(resp.status, 404);
    assert_eq!(resp.api_key, None);
    assert_eq!(resp.friendly_id, None);
    assert_eq!(resp.image_url.as_deref(), Some("http://example.localhost/setup_image.bmp"));
    assert_eq!(resp.message, "No device config found for MAC=invalid_mac_address");
}

#[test]
fn it_should_error_forbidden_setup_request_with_expired_setup() {
    let e = setup_response(
        &state(),
        &Some("fake_mac_address_expired_setup".to_string()),
        &Some("test".to_string()),
        1234567890,
        0,
    )
    .err()
    .unwrap();
    assert_eq!(e.status_code(), 403);
    assert!(e.to_string().contains("Authentication error: Attempted setup after expiry: friendly_id=fake_friendly_id_expired setup_expiry=2000-01-01 00:00:00 +00:00"));
}

#[test]
fn setup_request_needs_headers_and_a_valid_expiry() {
    let e = setup_response(&state(), &None, &Some("test".to_string()), 0, 0).err().unwrap();
    assert_eq!(message(e), (400, "Validation error: missing ID header".to_string()));
    let e = setup_response(&state(), &Some("fake_mac_address".to_string()), &None, 0, 0).err().unwrap();
    assert_eq!(message(e), (400, "Validation error: missing FW-Version header".to_string()));
    let mut s = state();
    s.config.devices = Some(vec![device("m", "f", "k", "yesterday")]);
    let e = setup_response(&s, &Some("m".to_string()), &Some("test".to_string()), 0, 0).err().unwrap();
    assert_eq!(message(e), (400, "Validation error: invalid setup expiry".to_string()));
}

#[test]
fn preview_index_lists_templates_with_ids() {
    let names = vec!["test.svg.jinja".to_string()];
    let p = preview_index("http://example.localhost", &names).unwrap_or_else(|_| panic!("index"));
    assert_eq!(p.websocket_url, "http://example.localhost/display/preview/ws");
    assert_eq!(p.templates, vec![("test.svg.jinja".to_string(), "746573742e7376672e6a696e6a61".to_string())]);
    let e = preview_index("nope", &names).err().unwrap();
    assert_eq!(e.to_string(), "Unexpected error: invalid base url, nope");
}

#[test]
fn timestamps_parse_as_rust_reads_u64() {
    let cases = [
        "0", "1234567890", "+5", "+", "", "-1", "1a", "é1", " 1", "007",
        "18446744073709551615", "18446744073709551616", "99999999999999999999x",
    ];
    for c in cases {
        assert_eq!(parse_u64(c), c.parse::<u64>().ok(), "{}", c);
    }
    assert_eq!(parse_u64("+42"), Some(42));
    assert_eq!(parse_u64("18446744073709551616"), None);
}

#[test]
fn setup_expiry_compares_exact_instants() {
    let mut s = state();
    s.config.devices = Some(vec![device("m", "f", "k", "2009-02-13T23:31:30.5Z")]);
    let mac = Some("m".to_string());
    let fw = Some("test".to_string());
    assert!(setup_response(&s, &mac, &fw, 1234567890, 400_000_000).is_ok());
    assert!(setup_response(&s, &mac, &fw, 1234567890, 500_000_000).is_ok());
    let e = setup_response(&s, &mac, &fw, 1234567890, 600_000_000).err().unwrap();
    assert_eq!(e.status_code(), 403);
}
