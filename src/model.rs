//! Data carried over the pairing protocol.
use vstd::prelude::*;

verus! {

/// Represents a device, as saved by the controller and as sent by a device
/// that asks to be remembered.
#[derive(Clone, Debug)]
pub struct Device {
    pub name: Option<String>,
    pub id: Option<String>,
    pub user: String,
    pub device: String,
}

impl Device {
    /// The "request form" of the device: the identifying fields `name` and
    /// `id` are cleared, the keys are kept as they are.
    pub fn for_request(&self) -> (r: Device)
        ensures
            r.name.is_none(),
            r.id.is_none(),
            r.user@ == self.user@,
            r.device@ == self.device@,
    {
        Device { name: None, id: None, user: self.user.clone(), device: self.device.clone() }
    }
}

} // verus!

verus! {

/// Response when a pairing code is requested.
pub struct CodeResponse {
    pub code: String,
}

/// A candidate device that asked to pair with this session.
///
/// To accept it, hand it to `PairingSession::confirm_candidate`.
#[derive(Debug)]
pub struct DeviceResponse {
    pub device_type: String,
    pub id: String,
    pub is_saved: Option<bool>,
}

impl DeviceResponse {
    /// A candidate as announced by the server, not yet confirmed.
    pub fn new(device_type: String, id: String) -> (r: DeviceResponse)
        ensures
            r.device_type@ == device_type@,
            r.id@ == id@,
            r.is_saved.is_none(),
    {
        DeviceResponse { device_type, id, is_saved: None }
    }

    /// The reported device id, used to tell whether the device is saved.
    pub fn id(&self) -> (r: &str)
        ensures
            r@ == self.id@,
    {
        self.id.as_str()
    }
}

/// The LAN URL of the paired device, with the device record it asks to have
/// saved, if any.
pub struct LanUrlResponse {
    pub url_lan: String,
    pub push_token: Option<Device>,
}

/// The three shapes of message that the pairing server sends.
pub enum ApiResponse {
    /// The pairing code; sent once, first.
    Code(CodeResponse),
    /// A device that used the code (or a push) to ask for pairing.
    Device(DeviceResponse),
    /// Where the paired device can be reached.
    LanUrl(LanUrlResponse),
}

/// Request payload asking a saved device to come back online.
pub struct SpecificDeviceRequest {
    pub code: String,
    pub push_token: Device,
}

/// Capability data reported by a device.
pub struct DeviceInfo {
    pub device_name: String,
    pub known_file_extensions: Vec<String>,
    pub supported_mimetypes: Vec<String>,
    pub app_name: String,
    pub app_version: u32,
}

} // verus!
