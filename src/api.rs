//! The decisions of the device API: a display check-in issues a capability
//! URL, and an image request is authorized against it.
use vstd::prelude::*;
use crate::config::{AppDeviceConfig, AppError, AppState, DeviceKey, device_key, device_list, error_detail, error_status, first_device, has_device};
use crate::dto::{ApiDisplayResponse, ApiSetupResponse, SpecialFunction};
use crate::token::hex_encode;
use crate::preview::preview_id;
use crate::token::{lemma_foreign_filename_needs_collision, sha256_of, token_message, expired, filename_of, filename_verifies, generate_filename, is_expired, verify_filename};

verus! {

/// The URL made from `base` with its path replaced by `path` and the
/// `query` pairs appended, form-encoded; `None` where `base` is no URL.
pub uninterp spec fn url_of(base: Seq<char>, path: Seq<char>, query: Seq<(Seq<char>, Seq<char>)>) -> Option<Seq<char>>;

/// Relies on url's `Url::parse`, `set_path` and `query_pairs_mut().append_pair`.
#[verifier::external_body]
pub(crate) fn build_url(base: &str, path: &str, query: &Vec<(String, String)>) -> (r: Option<String>)
    ensures
        r matches Some(s) ==> url_of(base@, path@, query.deep_view()) == Some(s@),
        r is None ==> url_of(base@, path@, query.deep_view()) is None,
{
    let mut url = url::Url::parse(base).ok()?;
    url.set_path(path);
    for (k, v) in query {
        url.query_pairs_mut().append_pair(k, v);
    }
    Some(url.to_string())
}

pub open spec fn is_digit(c: char) -> bool {
    '0' <= c && c <= '9'
}

pub open spec fn digit_value(c: char) -> int {
    c as u32 - '0' as u32
}

/// The value of a string of decimal digits.
pub open spec fn digits_value(d: Seq<char>) -> int
    decreases d.len(),
{
    if d.len() == 0 {
        0
    } else {
        10 * digits_value(d.drop_last()) + digit_value(d.last())
    }
}

/// A numeral without its optional leading `+`.
pub open spec fn digits_part(s: Seq<char>) -> Seq<char> {
    if s.len() > 0 && s[0] == '+' {
        s.drop_first()
    } else {
        s
    }
}

pub open spec fn all_digits(d: Seq<char>) -> bool {
    forall|i: int| 0 <= i < d.len() ==> is_digit(#[trigger] d[i])
}

/// The value of a decimal numeral as Rust's `u64` parser reads it: an
/// optional `+`, then one or more digits, of a value that fits.
pub open spec fn parsed_u64_of(s: Seq<char>) -> Option<u64> {
    let d = digits_part(s);
    if d.len() > 0 && all_digits(d) && digits_value(d) <= u64::MAX {
        Some(digits_value(d) as u64)
    } else {
        None
    }
}

proof fn lemma_digits_value_grows(d: Seq<char>, k: int)
    requires
        0 <= k <= d.len(),
        forall|i: int| 0 <= i < d.len() ==> is_digit(#[trigger] d[i]),
    ensures
        digits_value(d) >= digits_value(d.subrange(0, k)) >= 0,
    decreases d.len(),
{
    if d.len() > 0 {
        if k == d.len() {
            assert(d.subrange(0, k) =~= d);
            lemma_digits_value_grows(d.drop_last(), d.len() - 1);
            assert(d.drop_last().subrange(0, d.len() - 1) =~= d.drop_last());
        } else {
            lemma_digits_value_grows(d.drop_last(), k);
            assert(d.drop_last().subrange(0, k) =~= d.subrange(0, k));
        }
    } else {
        assert(d.subrange(0, k) =~= d);
    }
}

/// Reads a decimal `u64` the way Rust's `u64` parser does.
pub fn parse_u64(s: &str) -> (r: Option<u64>)
    ensures
        r == parsed_u64_of(s@),
{
    if !s.is_ascii() {
        proof {
            let i = choose|i: int| 0 <= i < s@.len() && !('\0' <= s@[i] && s@[i] <= '\u{7f}');
            let d = digits_part(s@);
            if s@.len() > 0 && s@[0] == '+' {
                assert(!is_digit(d[i - 1]));
            } else {
                assert(!is_digit(d[i]));
            }
            assert(!all_digits(d));
        }
        return None;
    }
    let bytes = s.as_bytes();
    proof {
        vstd::string::is_ascii_spec_bytes(s);
    }
    let ghost chars = s@;
    assert(bytes@.len() == chars.len());
    let start: usize = if bytes.len() > 0 && bytes[0] == 43u8 { 1 } else { 0 };
    let ghost d = digits_part(chars);
    proof {
        if chars.len() > 0 {
            assert(bytes@[0] == chars[0] as u8);
            assert((bytes@[0] == 43u8) == (chars[0] == '+'));
        }
        assert(d =~= chars.subrange(start as int, chars.len() as int));
    }
    if start == bytes.len() {
        assert(d.len() == 0);
        return None;
    }
    let mut acc: u64 = 0;
    let mut i: usize = start;
    while i < bytes.len()
        invariant
            start <= i <= bytes@.len(),
            chars == s@,
            d == digits_part(chars),
            bytes@.len() == chars.len(),
            bytes@ =~= Seq::new(chars.len(), |j: int| chars[j] as u8),
            forall|j: int| 0 <= j < chars.len() ==> '\0' <= #[trigger] chars[j] && chars[j] <= '\u{7f}',
            d =~= chars.subrange(start as int, chars.len() as int),
            forall|j: int| 0 <= j < i - start ==> is_digit(#[trigger] d[j]),
            acc as int == digits_value(d.subrange(0, i - start)),
        decreases bytes@.len() - i,
    {
        let b = bytes[i];
        let ghost c = chars[i as int];
        assert(b == c as u8);
        assert((48u8 <= b && b <= 57u8) == is_digit(c));
        if b < 48u8 || b > 57u8 {
            assert(!is_digit(d[i - start]));
            assert(!all_digits(d));
            return None;
        }
        let v = (b - 48u8) as u64;
        assert(v as int == digit_value(c));
        assert(d.subrange(0, i + 1 - start).drop_last() =~= d.subrange(0, i - start));
        if acc > (u64::MAX - v) / 10 {
            proof {
                assert(digits_value(d.subrange(0, i + 1 - start)) > u64::MAX);
                if all_digits(d) {
                    lemma_digits_value_grows(d, i + 1 - start);
                }
            }
            return None;
        }
        acc = acc * 10 + v;
        i = i + 1;
    }
    assert(d.subrange(0, d.len() as int) =~= d);
    assert(all_digits(d));
    Some(acc)
}

/// The headers of a display check-in, `None` where absent.
pub struct DisplayHeaders {
    pub access_token: Option<String>,
    pub id: Option<String>,
    pub refresh_rate: Option<String>,
    pub battery_voltage: Option<String>,
    pub fw_version: Option<String>,
    pub rssi: Option<String>,
    pub special_function: Option<String>,
}

/// The first required header that is absent, by name.
pub open spec fn missing_header(h: DisplayHeaders) -> Option<Seq<char>> {
    if h.access_token is None {
        Some("Access-Token"@)
    } else if h.id is None {
        Some("ID"@)
    } else if h.refresh_rate is None {
        Some("Refresh-Rate"@)
    } else if h.battery_voltage is None {
        Some("Battery-Voltage"@)
    } else if h.fw_version is None {
        Some("FW-Version"@)
    } else if h.rssi is None {
        Some("RSSI"@)
    } else {
        None
    }
}

pub open spec fn validation(e: AppError, m: Seq<char>) -> bool {
    e matches AppError::ValidationError(s) && s@ == m
}

pub open spec fn authorization(e: AppError, m: Seq<char>) -> bool {
    e matches AppError::AuthorizationError(s) && s@ == m
}

pub open spec fn unexpected(e: AppError, m: Seq<char>) -> bool {
    e matches AppError::UnexpectedError(s) && s@ == m
}

/// The path under which an issued image is fetched.
pub open spec fn display_path(filename: Seq<char>) -> Seq<char> {
    "/display/"@ + filename
}

/// The query that carries the device and the issuance time.
pub open spec fn display_query(friendly_id: Seq<char>, timestamp: Seq<char>) -> Seq<(Seq<char>, Seq<char>)> {
    seq![("friendly-id"@, friendly_id), ("timestamp"@, timestamp)]
}

/// The decimal digits of `n`.
pub open spec fn decimal_of(n: nat) -> Seq<char>
    decreases n,
{
    if n < 10 {
        seq![digit_char(n)]
    } else {
        decimal_of(n / 10) + seq![digit_char(n % 10)]
    }
}

pub open spec fn digit_char(d: nat) -> char {
    seq!['0', '1', '2', '3', '4', '5', '6', '7', '8', '9'][d as int]
}

fn digit(d: u64) -> (r: &'static str)
    requires
        d < 10,
    ensures
        r@ == seq![digit_char(d as nat)],
{
    proof {
        reveal_strlit("0");
        reveal_strlit("1");
        reveal_strlit("2");
        reveal_strlit("3");
        reveal_strlit("4");
        reveal_strlit("5");
        reveal_strlit("6");
        reveal_strlit("7");
        reveal_strlit("8");
        reveal_strlit("9");
    }
    let r = match d {
        0 => "0",
        1 => "1",
        2 => "2",
        3 => "3",
        4 => "4",
        5 => "5",
        6 => "6",
        7 => "7",
        8 => "8",
        _ => "9",
    };
    assert(r@ =~= seq![digit_char(d as nat)]);
    r
}

/// The decimal digits of `n`, most significant first.
pub fn decimal(n: u64) -> (r: String)
    ensures
        r@ == decimal_of(n as nat),
    decreases n,
{
    if n < 10 {
        digit(n).to_owned()
    } else {
        let mut s = decimal(n / 10);
        s.append(digit(n % 10));
        s
    }
}

fn required(value: &Option<String>, name: &str) -> (r: Result<String, AppError>)
    ensures
        value is Some ==> r == Ok::<String, AppError>(value.unwrap()),
        value is None ==> (r matches Err(e) && validation(e, "missing "@ + name@ + " header"@)),
{
    match value {
        Some(v) => Ok(v.clone()),
        None => {
            let mut m = "missing ".to_owned();
            m.append(name);
            m.append(" header");
            Err(AppError::ValidationError(m))
        }
    }
}

/// Answers a display check-in at time `now` (seconds since the Unix epoch):
/// the capability filename for the device's API key and `now`, and the URL
/// under the configured base that fetches it.
pub fn display_response(state: &AppState, headers: &DisplayHeaders, now: u64) -> (r: Result<ApiDisplayResponse, AppError>)
    ensures
        missing_header(*headers) matches Some(name) ==> (r matches Err(e)
            && validation(e, "missing "@ + name + " header"@)),
        missing_header(*headers) is None && !has_device(device_list(state.config), DeviceKey::ApiKey, headers.access_token.unwrap()@)
            ==> (r matches Err(e) && unexpected(e, "Failed to get device config"@)),
        r is Ok ==> missing_header(*headers) is None
            && has_device(device_list(state.config), DeviceKey::ApiKey, headers.access_token.unwrap()@),
        r matches Ok(resp) ==> {
            let key = headers.access_token.unwrap()@;
            let filename = filename_of(key, now);
            &&& resp.filename matches Some(f) && f@ == filename
            &&& resp.image_url matches Some(u) && url_of(state.config.base_url@, display_path(filename),
                    display_query(device_of(state.config, DeviceKey::ApiKey, key).friendly_id@, decimal_of(now as nat))) == Some(u@)
            &&& resp.image_url_timeout == Some(state.config.display_image_timeout as i32)
            &&& resp.status == 0 && resp.refresh_rate == 3600
            &&& resp.special_function == SpecialFunction::Sleep
            &&& resp.error_detail is None && resp.update_firmware is None && resp.firmware_url is None
            &&& resp.reset_firmware is None && resp.action is None
        },
        missing_header(*headers) is None
            && has_device(device_list(state.config), DeviceKey::ApiKey, headers.access_token.unwrap()@)
            ==> (r matches Err(e) ==> unexpected(e, "invalid base url, "@ + state.config.base_url@)),
        missing_header(*headers) is None
            && has_device(device_list(state.config), DeviceKey::ApiKey, headers.access_token.unwrap()@)
            && url_of(state.config.base_url@, display_path(filename_of(headers.access_token.unwrap()@, now)),
                display_query(device_of(state.config, DeviceKey::ApiKey, headers.access_token.unwrap()@).friendly_id@,
                    decimal_of(now as nat))) is Some
            ==> r is Ok,
{
    let api_key = required(&headers.access_token, "Access-Token")?;
    let _mac_address = required(&headers.id, "ID")?;
    let _refresh_rate = required(&headers.refresh_rate, "Refresh-Rate")?;
    let _battery_voltage = required(&headers.battery_voltage, "Battery-Voltage")?;
    let _fw_version = required(&headers.fw_version, "FW-Version")?;
    let _rssi = required(&headers.rssi, "RSSI")?;
    let device = state.get_device_config_by_api_key(api_key.as_str())?;
    proof {
        let c = state.config;
        let v = api_key@;
        let i = choose|i: int| first_device(device_list(c), DeviceKey::ApiKey, v, i) && device_list(c)[i] == device;
        let k = choose|k: int| first_device(device_list(c), DeviceKey::ApiKey, v, k);
        if i < k {
            assert(device_key(device_list(c)[i], DeviceKey::ApiKey) != v);
        } else if k < i {
            assert(device_key(device_list(c)[k], DeviceKey::ApiKey) != v);
        }
        assert(device == device_of(c, DeviceKey::ApiKey, v));
    }
    let filename = generate_filename(api_key.clone(), now);
    let mut path = "/display/".to_owned();
    path.append(filename.as_str());
    let query = vec![
        ("friendly-id".to_owned(), device.friendly_id.clone()),
        ("timestamp".to_owned(), decimal(now)),
    ];
    assert(query.deep_view() =~= display_query(device.friendly_id@, decimal_of(now as nat)));
    let image_url = match build_url(state.config.base_url.as_str(), path.as_str(), &query) {
        Some(u) => u,
        None => {
            let mut m = "invalid base url, ".to_owned();
            m.append(state.config.base_url.as_str());
            return Err(AppError::UnexpectedError(m));
        }
    };
    Ok(ApiDisplayResponse {
        error_detail: None,
        status: 0,
        image_url: Some(image_url),
        image_url_timeout: Some(state.config.display_image_timeout as i32),
        filename: Some(filename),
        refresh_rate: 3600,
        update_firmware: None,
        firmware_url: None,
        reset_firmware: None,
        special_function: SpecialFunction::Sleep,
        action: None,
    })
}

/// The first device with `value` under `key`, where there is one.
pub open spec fn device_of(c: crate::config::AppConfig, key: DeviceKey, value: Seq<char>) -> AppDeviceConfig {
    device_list(c)[choose|i: int| first_device(device_list(c), key, value, i)]
}

/// An image request that passed its checks: the device, the issuance time
/// it carried, and the template to render.
pub struct ImageGrant {
    pub device: AppDeviceConfig,
    pub issued_at: u64,
    pub template: String,
}

/// Why an image request is refused, in the order of the checks, or `None`.
pub open spec fn image_refusal(
    c: crate::config::AppConfig,
    filename: Seq<char>,
    friendly_id: Option<Seq<char>>,
    timestamp: Option<Seq<char>>,
    now: u64,
) -> Option<(int, Seq<char>)> {
    if friendly_id is None {
        Some((400, "missing friendly-id query param"@))
    } else if timestamp is None {
        Some((400, "missing timestamp query param"@))
    } else if parsed_u64_of(timestamp.unwrap()) is None {
        Some((400, "invalid timestamp query param"@))
    } else if !has_device(device_list(c), DeviceKey::FriendlyId, friendly_id.unwrap()) {
        Some((500, "Failed to get device config"@))
    } else {
        let t = parsed_u64_of(timestamp.unwrap()).unwrap();
        let d = device_of(c, DeviceKey::FriendlyId, friendly_id.unwrap());
        if !filename_verifies(filename, d.api_key@, t) {
            Some((401, "invalid filename"@))
        } else if now < t {
            Some((500, "failed to get elapsed time"@))
        } else if expired(t, now, c.display_image_timeout) {
            Some((401, "image expired"@))
        } else {
            None
        }
    }
}

pub open spec fn opt_view(o: Option<String>) -> Option<Seq<char>> {
    match o {
        Some(s) => Some(s@),
        None => None,
    }
}

/// Authorizes a request for image `filename` with the query values
/// `friendly_id` and `timestamp`, at time `now`: the filename must be the one
/// issued for the device's API key at that timestamp, and not stale.
pub fn authorize_image_request(
    state: &AppState,
    filename: &str,
    friendly_id: &Option<String>,
    timestamp: &Option<String>,
    now: u64,
) -> (r: Result<ImageGrant, AppError>)
    ensures
        ({
            let refusal = image_refusal(state.config, filename@, opt_view(*friendly_id), opt_view(*timestamp), now);
            &&& r is Ok <==> refusal is None
            &&& r matches Err(e) ==> refusal matches Some((status, m)) && error_status(e) == status && error_detail(e) == m
            &&& r matches Ok(g) ==> g.device == device_of(state.config, DeviceKey::FriendlyId, friendly_id.unwrap()@)
                && Some(g.issued_at) == parsed_u64_of(timestamp.unwrap()@)
                && g.template@ == "test.svg.jinja"@
        }),
{
    let friendly_id = match friendly_id {
        Some(f) => f,
        None => return Err(AppError::ValidationError("missing friendly-id query param".to_owned())),
    };
    let timestamp = match timestamp {
        Some(t) => t,
        None => return Err(AppError::ValidationError("missing timestamp query param".to_owned())),
    };
    let issued_at = match parse_u64(timestamp.as_str()) {
        Some(t) => t,
        None => return Err(AppError::ValidationError("invalid timestamp query param".to_owned())),
    };
    let device = state.get_device_config_by_friendly_id(friendly_id.as_str());
    let device = match device {
        Ok(d) => d,
        Err(e) => return Err(e),
    };
    proof {
        let c = state.config;
        let v = friendly_id@;
        let i = choose|i: int| first_device(device_list(c), DeviceKey::FriendlyId, v, i) && device_list(c)[i] == device;
        let k = choose|k: int| first_device(device_list(c), DeviceKey::FriendlyId, v, k);
        if i < k {
            assert(device_key(device_list(c)[i], DeviceKey::FriendlyId) != v);
        } else if k < i {
            assert(device_key(device_list(c)[k], DeviceKey::FriendlyId) != v);
        }
        assert(device == device_of(c, DeviceKey::FriendlyId, v));
    }
    if !verify_filename(filename, device.api_key.clone(), issued_at) {
        return Err(AppError::AuthorizationError("invalid filename".to_owned()));
    }
    if now < issued_at {
        return Err(AppError::UnexpectedError("failed to get elapsed time".to_owned()));
    }
    if is_expired(issued_at, now, state.config.display_image_timeout) {
        return Err(AppError::AuthorizationError("image expired".to_owned()));
    }
    let template = device.get_template(issued_at);
    Ok(ImageGrant { device, issued_at, template })
}

/// An RFC 3339 timestamp read by chrono: its instant in whole seconds since
/// the Unix epoch and nanoseconds past that second, and chrono's display of
/// it; `None` where it does not parse.
pub uninterp spec fn rfc3339_of(s: Seq<char>) -> Option<(i64, u32, Seq<char>)>;

/// Whether the instant `(a_secs, a_nanos)` comes before `(b_secs, b_nanos)`.
pub open spec fn instant_before(a_secs: i64, a_nanos: u32, b_secs: i64, b_nanos: u32) -> bool {
    a_secs < b_secs || (a_secs == b_secs && a_nanos < b_nanos)
}

/// Relies on chrono's `DateTime::parse_from_rfc3339`, with the parsed value's
/// `timestamp`, `timestamp_subsec_nanos` and `Display`.
#[verifier::external_body]
fn parse_rfc3339(s: &str) -> (r: Option<(i64, u32, String)>)
    ensures
        r matches Some((t, n, d)) ==> rfc3339_of(s@) == Some((t, n, d@)),
        r is None ==> rfc3339_of(s@) is None,
{
    let t = chrono::DateTime::parse_from_rfc3339(s).ok()?;
    Some((t.timestamp(), t.timestamp_subsec_nanos(), t.to_string()))
}

pub open spec fn setup_image_url(base: Seq<char>) -> Seq<char> {
    base + "/setup_image.bmp"@
}

/// Answers a setup request from the device with MAC address `id` at the
/// instant `now_secs` seconds and `now_nanos` nanoseconds past the Unix epoch: a known device whose setup window is open
/// gets its API key and friendly id; an unknown one a not-found answer.
pub fn setup_response(state: &AppState, id: &Option<String>, fw_version: &Option<String>, now_secs: i64, now_nanos: u32) -> (r: Result<ApiSetupResponse, AppError>)
    ensures
        id is None ==> (r matches Err(e) && validation(e, "missing ID header"@)),
        id is Some && fw_version is None ==> (r matches Err(e) && validation(e, "missing FW-Version header"@)),
        id is Some && fw_version is Some ==> ({
            let mac = id.unwrap()@;
            let base = state.config.base_url@;
            if !has_device(device_list(state.config), DeviceKey::Mac, mac) {
                r matches Ok(resp) && resp.status == 404 && resp.api_key is None && resp.friendly_id is None
                    && (resp.image_url matches Some(u) && u@ == setup_image_url(base))
                    && resp.message@ == "No device config found for MAC="@ + mac
            } else {
                let d = device_of(state.config, DeviceKey::Mac, mac);
                match rfc3339_of(d.setup_expiry@) {
                    None => r matches Err(e) && validation(e, "invalid setup expiry"@),
                    Some((expiry, expiry_nanos, shown)) => if instant_before(expiry, expiry_nanos, now_secs, now_nanos) {
                        r matches Err(AppError::AuthenticationError(m))
                            && m@ == "Attempted setup after expiry: friendly_id="@ + d.friendly_id@ + " setup_expiry="@ + shown
                    } else {
                        r matches Ok(resp) && resp.status == 200
                            && (resp.api_key matches Some(k) && k@ == d.api_key@)
                            && (resp.friendly_id matches Some(f) && f@ == d.friendly_id@)
                            && (resp.image_url matches Some(u) && u@ == setup_image_url(base))
                            && resp.message@ == "Success"@
                    },
                }
            }
        }),
{
    let mac = match id {
        Some(m) => m,
        None => return Err(AppError::ValidationError("missing ID header".to_owned())),
    };
    if fw_version.is_none() {
        return Err(AppError::ValidationError("missing FW-Version header".to_owned()));
    }
    let mut image_url = state.config.base_url.clone();
    image_url.append("/setup_image.bmp");
    let device = match state.config.get_device_by_mac(mac.as_str()) {
        Some(d) => d,
        None => {
            let mut message = "No device config found for MAC=".to_owned();
            message.append(mac.as_str());
            return Ok(ApiSetupResponse { status: 404, api_key: None, friendly_id: None, image_url: Some(image_url), message });
        },
    };
    proof {
        let c = state.config;
        let v = mac@;
        let i = choose|i: int| first_device(device_list(c), DeviceKey::Mac, v, i) && device_list(c)[i] == *device;
        let k = choose|k: int| first_device(device_list(c), DeviceKey::Mac, v, k);
        if i < k {
            assert(device_key(device_list(c)[i], DeviceKey::Mac) != v);
        } else if k < i {
            assert(device_key(device_list(c)[k], DeviceKey::Mac) != v);
        }
        assert(*device == device_of(c, DeviceKey::Mac, v));
    }
    let (expiry, expiry_nanos, shown) = match parse_rfc3339(device.setup_expiry.as_str()) {
        Some(p) => p,
        None => return Err(AppError::ValidationError("invalid setup expiry".to_owned())),
    };
    if expiry < now_secs || (expiry == now_secs && expiry_nanos < now_nanos) {
        let mut m = "Attempted setup after expiry: friendly_id=".to_owned();
        m.append(device.friendly_id.as_str());
        m.append(" setup_expiry=");
        m.append(shown.as_str());
        return Err(AppError::AuthenticationError(m));
    }
    Ok(ApiSetupResponse {
        status: 200,
        api_key: Some(device.api_key.clone()),
        friendly_id: Some(device.friendly_id.clone()),
        image_url: Some(image_url),
        message: "Success".to_owned(),
    })
}

/// The preview page's data: the socket URL and each template with its
/// preview identifier.
pub struct PreviewIndex {
    pub websocket_url: String,
    pub templates: Vec<(String, String)>,
}

/// The preview page's data for the templates `names` under `base_url`.
pub fn preview_index(base_url: &str, names: &Vec<String>) -> (r: Result<PreviewIndex, AppError>)
    ensures
        url_of(base_url@, "/display/preview/ws"@, Seq::empty()) is None
            <==> (r matches Err(e) && unexpected(e, "invalid base url, "@ + base_url@)),
        r is Ok <==> url_of(base_url@, "/display/preview/ws"@, Seq::empty()) is Some,
        r matches Ok(p) ==> Some(p.websocket_url@) == url_of(base_url@, "/display/preview/ws"@, Seq::empty())
            && p.templates@.len() == names@.len()
            && forall|i: int| 0 <= i < names@.len() ==> (#[trigger] p.templates@[i]).0@ == names@[i]@
                && p.templates@[i].1@ == preview_id(names@[i]@),
{
    let no_query: Vec<(String, String)> = Vec::new();
    assert(no_query.deep_view() =~= Seq::<(Seq<char>, Seq<char>)>::empty());
    let websocket_url = match build_url(base_url, "/display/preview/ws", &no_query) {
        Some(u) => u,
        None => {
            let mut m = "invalid base url, ".to_owned();
            m.append(base_url);
            return Err(AppError::UnexpectedError(m));
        },
    };
    let mut templates: Vec<(String, String)> = Vec::new();
    let mut i: usize = 0;
    while i < names.len()
        invariant
            i <= names@.len(),
            templates@.len() == i,
            forall|j: int| 0 <= j < i ==> (#[trigger] templates@[j]).0@ == names@[j]@
                && templates@[j].1@ == preview_id(names@[j]@),
        decreases names@.len() - i,
    {
        let id = hex_encode(names[i].as_str().as_bytes());
        templates.push((names[i].clone(), id));
        i = i + 1;
    }
    Ok(PreviewIndex { websocket_url, templates })
}

/// An image request that carries the filename issued for another key or
/// another time than the device's key and the request's timestamp is refused
/// as an invalid filename, unless the two digested messages collide under
/// SHA-256.
pub proof fn lemma_foreign_filename_refused(
    c: crate::config::AppConfig,
    key: Seq<char>,
    issued_at: u64,
    friendly_id: Seq<char>,
    timestamp: Seq<char>,
    now: u64,
)
    requires
        has_device(device_list(c), DeviceKey::FriendlyId, friendly_id),
        parsed_u64_of(timestamp) matches Some(t) && ({
            let k = device_of(c, DeviceKey::FriendlyId, friendly_id).api_key@;
            &&& key != k || issued_at != t
            &&& sha256_of(token_message(key, issued_at)) != sha256_of(token_message(k, t))
        }),
    ensures
        image_refusal(c, filename_of(key, issued_at), Some(friendly_id), Some(timestamp), now)
            == Some((401int, "invalid filename"@)),
{
    let t = parsed_u64_of(timestamp).unwrap();
    let k = device_of(c, DeviceKey::FriendlyId, friendly_id).api_key@;
    lemma_foreign_filename_needs_collision(key, issued_at, k, t);
}

} // verus!
