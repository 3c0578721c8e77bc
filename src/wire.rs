//! Telling apart the three message shapes of the untagged wire format.
//!
//! A message carries no tag; its shape is told by its required fields, tried
//! in a fixed order: the code, then the candidate device, then the LAN URL.
use vstd::prelude::*;
use crate::error::ApiError;
use crate::model::{ApiResponse, CodeResponse, Device, DeviceResponse, LanUrlResponse};

verus! {

/// The fields of one received message object, each present only if it had
/// the expected type.
pub struct WireFields {
    /// `code`: a string.
    pub code: Option<String>,
    /// `type`: a string.
    pub device_type: Option<String>,
    /// `device`: a string.
    pub device: Option<String>,
    /// `is_saved`: a boolean.
    pub is_saved: Option<bool>,
    /// `url_lan`: a string.
    pub url_lan: Option<String>,
    /// `push_token`: a device record.
    pub push_token: Option<Device>,
}

impl ApiResponse {
    /// The message that the fields make up: a code message if there is a
    /// code; else a candidate if there are a type and a device id; else a
    /// LAN URL message if there is a URL. Any other object is malformed.
    pub fn decode(f: WireFields) -> (r: Result<ApiResponse, ApiError>)
        ensures
            f.code is Some ==> (r matches Ok(ApiResponse::Code(c)) && c.code == f.code->Some_0),
            f.code is None && f.device_type is Some && f.device is Some ==> (r matches Ok(
                ApiResponse::Device(d),
            ) && d.device_type == f.device_type->Some_0 && d.id == f.device->Some_0 && d.is_saved
                == f.is_saved),
            f.code is None && !(f.device_type is Some && f.device is Some) && f.url_lan is Some ==> (
            r matches Ok(ApiResponse::LanUrl(l)) && l.url_lan == f.url_lan->Some_0 && l.push_token
                == f.push_token),
            f.code is None && !(f.device_type is Some && f.device is Some) && f.url_lan is None ==> (
            r matches Err(ApiError::MalformedResponse)),
    {
        match f.code {
            Some(code) => {
                return Ok(ApiResponse::Code(CodeResponse { code }));
            },
            None => {},
        }
        match (f.device_type, f.device) {
            (Some(device_type), Some(id)) => {
                return Ok(ApiResponse::Device(DeviceResponse { device_type, id, is_saved: f.is_saved }));
            },
            _ => {},
        }
        match f.url_lan {
            Some(url_lan) => Ok(ApiResponse::LanUrl(LanUrlResponse { url_lan, push_token: f.push_token })),
            None => Err(ApiError::MalformedResponse),
        }
    }
}

} // verus!
