//! Server and device configuration, device lookup, and the error taxonomy.
use vstd::prelude::*;
use std::path::PathBuf;

verus! {

#[verifier::external_type_specification]
#[verifier::external_body]
pub struct ExPathBuf(std::path::PathBuf);

pub struct AppServerConfig {
    pub listen: String,
    pub config_path: PathBuf,
}

pub struct AppDeviceConfig {
    pub mac_address: String,
    pub friendly_id: String,
    pub api_key: String,
    pub setup_expiry: String,
}

pub struct AppConfig {
    pub devices: Option<Vec<AppDeviceConfig>>,
    pub base_url: String,
    pub setup_image_path: String,
    pub display_image_timeout: u64,
    pub templates_path: PathBuf,
    pub fonts_path: PathBuf,
    pub default_context_path: PathBuf,
}

/// Which identifier a device is looked up by.
#[derive(Clone, Copy, Debug, PartialEq, Eq, Structural)]
pub enum DeviceKey {
    Mac,
    FriendlyId,
    ApiKey,
}

pub open spec fn device_key(d: AppDeviceConfig, key: DeviceKey) -> Seq<char> {
    match key {
        DeviceKey::Mac => d.mac_address@,
        DeviceKey::FriendlyId => d.friendly_id@,
        DeviceKey::ApiKey => d.api_key@,
    }
}

pub open spec fn device_list(c: AppConfig) -> Seq<AppDeviceConfig> {
    match c.devices {
        Some(v) => v@,
        None => Seq::empty(),
    }
}

/// Whether `i` is the first device whose `key` equals `value`.
pub open spec fn first_device(devices: Seq<AppDeviceConfig>, key: DeviceKey, value: Seq<char>, i: int) -> bool {
    &&& 0 <= i < devices.len()
    &&& device_key(devices[i], key) == value
    &&& forall|j: int| 0 <= j < i ==> device_key(#[trigger] devices[j], key) != value
}

pub open spec fn has_device(devices: Seq<AppDeviceConfig>, key: DeviceKey, value: Seq<char>) -> bool {
    exists|i: int| 0 <= i < devices.len() && device_key(#[trigger] devices[i], key) == value
}

pub open spec fn found(c: AppConfig, key: DeviceKey, value: Seq<char>, r: Option<&AppDeviceConfig>) -> bool {
    &&& r is Some <==> has_device(device_list(c), key, value)
    &&& r matches Some(d) ==> exists|i: int| first_device(device_list(c), key, value, i) && device_list(c)[i] == *d
}

impl AppDeviceConfig {
    /// The template that a device shows.
    pub fn get_template(&self, _timestamp: u64) -> (r: String)
        ensures
            r@ == "test.svg.jinja"@,
    {
        "test.svg.jinja".to_owned()
    }

    /// A copy with the same fields.
    pub fn duplicate(&self) -> (r: AppDeviceConfig)
        ensures
            r == *self,
    {
        AppDeviceConfig {
            mac_address: self.mac_address.clone(),
            friendly_id: self.friendly_id.clone(),
            api_key: self.api_key.clone(),
            setup_expiry: self.setup_expiry.clone(),
        }
    }

    fn key(&self, key: DeviceKey) -> (r: &String)
        ensures
            r@ == device_key(*self, key),
    {
        match key {
            DeviceKey::Mac => &self.mac_address,
            DeviceKey::FriendlyId => &self.friendly_id,
            DeviceKey::ApiKey => &self.api_key,
        }
    }
}

impl AppConfig {
    fn find_device(&self, key: DeviceKey, value: &str) -> (r: Option<&AppDeviceConfig>)
        ensures
            found(*self, key, value@, r),
    {
        let devices = match &self.devices {
            Some(d) => d,
            None => return None,
        };
        let wanted = value.to_owned();
        let mut i: usize = 0;
        while i < devices.len()
            invariant
                i <= devices@.len(),
                device_list(*self) == devices@,
                wanted@ == value@,
                forall|j: int| 0 <= j < i ==> device_key(#[trigger] devices@[j], key) != value@,
            decreases devices@.len() - i,
        {
            let d = &devices[i];
            if *d.key(key) == wanted {
                assert(first_device(devices@, key, value@, i as int));
                return Some(d);
            }
            i = i + 1;
        }
        None
    }

    /// The first device with this MAC address.
    pub fn get_device_by_mac(&self, mac: &str) -> (r: Option<&AppDeviceConfig>)
        ensures
            found(*self, DeviceKey::Mac, mac@, r),
    {
        self.find_device(DeviceKey::Mac, mac)
    }

    /// The first device with this friendly id.
    pub fn get_device_by_friendly_id(&self, friendly_id: &str) -> (r: Option<&AppDeviceConfig>)
        ensures
            found(*self, DeviceKey::FriendlyId, friendly_id@, r),
    {
        self.find_device(DeviceKey::FriendlyId, friendly_id)
    }

    /// The first device with this API key.
    pub fn get_device_by_api_key(&self, api_key: &str) -> (r: Option<&AppDeviceConfig>)
        ensures
            found(*self, DeviceKey::ApiKey, api_key@, r),
    {
        self.find_device(DeviceKey::ApiKey, api_key)
    }
}

/// What a request fails with. Validation errors answer 400, authentication
/// errors 403, authorization errors 401 and anything unexpected 500.
#[derive(Debug)]
pub enum AppError {
    ValidationError(String),
    AuthenticationError(String),
    AuthorizationError(String),
    UnexpectedError(String),
}

pub open spec fn error_prefix(e: AppError) -> Seq<char> {
    match e {
        AppError::ValidationError(_) => "Validation error: "@,
        AppError::AuthenticationError(_) => "Authentication error: "@,
        AppError::AuthorizationError(_) => "Authorization error: "@,
        AppError::UnexpectedError(_) => "Unexpected error: "@,
    }
}

pub open spec fn error_detail(e: AppError) -> Seq<char> {
    match e {
        AppError::ValidationError(m) => m@,
        AppError::AuthenticationError(m) => m@,
        AppError::AuthorizationError(m) => m@,
        AppError::UnexpectedError(m) => m@,
    }
}

pub open spec fn error_status(e: AppError) -> u16 {
    match e {
        AppError::ValidationError(_) => 400,
        AppError::AuthenticationError(_) => 403,
        AppError::AuthorizationError(_) => 401,
        AppError::UnexpectedError(_) => 500,
    }
}

impl AppError {
    /// The message shown to the client: the kind of error, then its detail.
    pub fn to_string(&self) -> (r: String)
        ensures
            r@ == error_prefix(*self) + error_detail(*self),
    {
        let (prefix, detail) = match self {
            AppError::ValidationError(m) => ("Validation error: ", m),
            AppError::AuthenticationError(m) => ("Authentication error: ", m),
            AppError::AuthorizationError(m) => ("Authorization error: ", m),
            AppError::UnexpectedError(m) => ("Unexpected error: ", m),
        };
        let mut r = prefix.to_owned();
        r.append(detail.as_str());
        r
    }

    /// The HTTP status code that answers this error.
    pub fn status_code(&self) -> (r: u16)
        ensures
            r == error_status(*self),
    {
        match self {
            AppError::ValidationError(_) => 400,
            AppError::AuthenticationError(_) => 403,
            AppError::AuthorizationError(_) => 401,
            AppError::UnexpectedError(_) => 500,
        }
    }
}

/// The source of the current time, in seconds since the Unix epoch; `None`
/// for a clock set before the epoch.
pub trait Clock {
    fn now(&self) -> Option<u64>;
}

/// What one request sees: the server's settings and the configuration as
/// read from disk for this request.
pub struct AppState {
    pub server_config: AppServerConfig,
    pub config: AppConfig,
}

pub open spec fn lookup_result(c: AppConfig, key: DeviceKey, value: Seq<char>, r: Result<AppDeviceConfig, AppError>) -> bool {
    &&& r is Ok <==> has_device(device_list(c), key, value)
    &&& r matches Ok(d) ==> exists|i: int| first_device(device_list(c), key, value, i) && device_list(c)[i] == d
    &&& r matches Err(e) ==> e matches AppError::UnexpectedError(m) && m@ == "Failed to get device config"@
}

impl AppState {
    fn device_config(&self, key: DeviceKey, value: &str) -> (r: Result<AppDeviceConfig, AppError>)
        ensures
            lookup_result(self.config, key, value@, r),
    {
        match self.config.find_device(key, value) {
            Some(d) => Ok(d.duplicate()),
            None => Err(AppError::UnexpectedError("Failed to get device config".to_owned())),
        }
    }

    /// The configuration of the first device with this friendly id.
    pub fn get_device_config_by_friendly_id(&self, friendly_id: &str) -> (r: Result<AppDeviceConfig, AppError>)
        ensures
            lookup_result(self.config, DeviceKey::FriendlyId, friendly_id@, r),
    {
        self.device_config(DeviceKey::FriendlyId, friendly_id)
    }

    /// The configuration of the first device with this API key.
    pub fn get_device_config_by_api_key(&self, api_key: &str) -> (r: Result<AppDeviceConfig, AppError>)
        ensures
            lookup_result(self.config, DeviceKey::ApiKey, api_key@, r),
    {
        self.device_config(DeviceKey::ApiKey, api_key)
    }
}

} // verus!
