//! Errors of the pairing protocol and of device transfers.
use vstd::prelude::*;

verus! {

/// Every failure that the pairing session and the device client report.
/// Failures of outside services carry their message.
#[derive(Debug)]
pub enum ApiError {
    /// A read or write on a connection or a file failed.
    Io(String),
    /// A message could not be encoded or decoded.
    Serde(String),
    /// The duplex connection failed.
    Websocket(String),
    /// A message broke the protocol's shape or order.
    MalformedResponse,
    /// The out-of-band request came back with this status.
    BadResponse(u16),
    /// An HTTP exchange failed.
    Http(String),
    /// A device other than the requested one answered.
    UnexpectedDevice,
    /// The saved device has no id.
    DeviceIdMissing,
    /// A URL could not be parsed.
    InvalidUrl(String),
    /// A path has no file name.
    InvalidPath,
    /// The connection closed before the awaited message came.
    ConnectionClosed,
    /// The session was used after it was closed.
    SessionClosed,
}

} // verus!
