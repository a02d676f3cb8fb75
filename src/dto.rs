//! Response bodies of the device API.
use vstd::prelude::*;

verus! {

/// What the device does after a check-in.
#[derive(Clone, Copy, Debug, PartialEq, Eq, Structural)]
pub enum SpecialFunction {
    NoFunction,
    Identify,
    Sleep,
    AddWifi,
    RestartPlaylist,
    Rewind,
    SendToMe,
}

pub open spec fn special_function_name(f: SpecialFunction) -> Seq<char> {
    match f {
        SpecialFunction::NoFunction => "none"@,
        SpecialFunction::Identify => "identify"@,
        SpecialFunction::Sleep => "sleep"@,
        SpecialFunction::AddWifi => "add_wifi"@,
        SpecialFunction::RestartPlaylist => "restart_playlist"@,
        SpecialFunction::Rewind => "rewind"@,
        SpecialFunction::SendToMe => "send_to_me"@,
    }
}

impl SpecialFunction {
    /// The wire name of the function.
    pub fn to_string(&self) -> (r: String)
        ensures
            r@ == special_function_name(*self),
    {
        let name = match self {
            SpecialFunction::NoFunction => "none",
            SpecialFunction::Identify => "identify",
            SpecialFunction::Sleep => "sleep",
            SpecialFunction::AddWifi => "add_wifi",
            SpecialFunction::RestartPlaylist => "restart_playlist",
            SpecialFunction::Rewind => "rewind",
            SpecialFunction::SendToMe => "send_to_me",
        };
        name.to_owned()
    }
}

impl Default for SpecialFunction {
    fn default() -> (r: SpecialFunction)
        ensures
            r == SpecialFunction::NoFunction,
    {
        SpecialFunction::NoFunction
    }
}

/// The answer to a display check-in.
pub struct ApiDisplayResponse {
    pub error_detail: Option<String>,
    pub status: i32,
    pub image_url: Option<String>,
    pub image_url_timeout: Option<i32>,
    pub filename: Option<String>,
    pub update_firmware: Option<bool>,
    pub firmware_url: Option<String>,
    pub refresh_rate: i32,
    pub reset_firmware: Option<bool>,
    pub special_function: SpecialFunction,
    pub action: Option<SpecialFunction>,
}

/// The answer to a setup request.
pub struct ApiSetupResponse {
    pub status: i32,
    pub api_key: Option<String>,
    pub friendly_id: Option<String>,
    pub image_url: Option<String>,
    pub message: String,
}

} // verus!
