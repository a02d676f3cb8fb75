use std::path::PathBuf;
use trmnl_server::config::{AppConfig, AppDeviceConfig, AppError, AppServerConfig, AppState};

fn device(mac: &str, friendly_id: &str, api_key: &str) -> AppDeviceConfig {
    AppDeviceConfig {
        mac_address: mac.to_string(),
        friendly_id: friendly_id.to_string(),
        api_key: api_key.to_string(),
        setup_expiry: "9999-01-01T00:00:00Z".to_string(),
    }
}

fn config(devices: Option<Vec<AppDeviceConfig>>) -> AppConfig {
    AppConfig {
        devices,
        base_url: "http://example.localhost".to_string(),
        setup_image_path: "blank.bmp".to_string(),
        display_image_timeout: 60,
        templates_path: PathBuf::from("templates"),
        fonts_path: PathBuf::from("fonts"),
        default_context_path: PathBuf::from("templates/default.json"),
    }
}

#[test]
fn devices_are_found_by_each_key() {
    let c = config(Some(vec![device("m1", "f1", "k1"), device("m2", "f2", "k2"), device("m2", "f3", "k3")]));
    assert_eq!(c.get_device_by_mac("m2").map(|d| d.friendly_id.as_str()), Some("f2"));
    assert_eq!(c.get_device_by_friendly_id("f3").map(|d| d.api_key.as_str()), Some("k3"));
    assert_eq!(c.get_device_by_api_key("k1").map(|d| d.mac_address.as_str()), Some("m1"));
    assert!(c.get_device_by_mac("invalid_mac_address").is_none());
    assert!(c.get_device_by_api_key("f1").is_none());
}

#[test]
fn no_device_list_finds_nothing() {
    let c = config(None);
    assert!(c.get_device_by_mac("m1").is_none());
    assert!(c.get_device_by_friendly_id("").is_none());
}

#[test]
fn state_lookups_copy_the_device() {
    let s = AppState {
        server_config: AppServerConfig { listen: "0.0.0.0:9080".to_string(), config_path: PathBuf::from("c.toml") },
        config: config(Some(vec![device("m1", "f1", "k1")])),
    };
    let d = s.get_device_config_by_api_key("k1").unwrap_or_else(|_| panic!("device"));
    assert_eq!(d.friendly_id, "f1");
    let d = s.get_device_config_by_friendly_id("f1").unwrap_or_else(|_| panic!("device"));
    assert_eq!(d.api_key, "k1");
    assert_eq!(d.get_template(0), "test.svg.jinja");
    let e = s.get_device_config_by_friendly_id("f9").err().unwrap();
    assert_eq!(e.to_string(), "Unexpected error: Failed to get device config");
}

#[test]
fn errors_map_to_status_codes() {
    let cases = vec![
        (AppError::ValidationError("v".to_string()), 400, "Validation error: v"),
        (AppError::AuthenticationError("a".to_string()), 403, "Authentication error: a"),
        (AppError::AuthorizationError("z".to_string()), 401, "Authorization error: z"),
        (AppError::UnexpectedError("u".to_string()), 500, "Unexpected error: u"),
    ];
    for (e, status, text) in cases {
        assert_eq!(e.status_code(), status);
        assert_eq!(e.to_string(), text);
    }
}
