//! Addresses of the pairing service.
use vstd::prelude::*;

verus! {

/// The pairing service's domain.
pub const API_DOMAIN: &'static str = "doppler-transfer.com";

/// The path of the duplex pairing connection for a session id.
pub open spec fn code_path(id: Seq<char>) -> Seq<char> {
    seq!['/', 'a', 'p', 'i', '/', 'v', '1', '/', 'c', 'o', 'd', 'e', '?', 'i', 'd', '='] + id
}

/// Relies on uuid::Uuid::new_v4, a random version 4 id, and on its
/// Display, which writes the hyphenated lower-case form of 36 characters.
#[verifier::external_body]
fn random_session_id() -> (r: String)
    ensures
        r@.len() == 36,
{
    uuid::Uuid::new_v4().to_string()
}

/// The path and query of the duplex pairing connection for session `id`.
pub fn connect_path(id: &str) -> (r: String)
    ensures
        r@ == code_path(id@),
{
    let mut p = String::from_str("/api/v1/code?id=");
    p.append(id);
    proof {
        reveal_strlit("/api/v1/code?id=");
    }
    p
}

/// The path and query of a new pairing connection, under a fresh random
/// session id.
pub fn new_connect_path() -> (r: String)
    ensures
        exists|id: Seq<char>| id.len() == 36 && r@ == code_path(id),
{
    let id = random_session_id();
    connect_path(id.as_str())
}

/// The URL of the out-of-band request that asks a saved device to pair.
pub fn request_device_url() -> (r: String)
    ensures
        r@ == seq!['h', 't', 't', 'p', 's', ':', '/', '/'] + API_DOMAIN@ + seq![
            '/', 'a', 'p', 'i', '/', 'v', '0', '/', 'r', 'e', 'q', 'u', 'e', 's', 't', '-', 'd', 'e', 'v', 'i', 'c', 'e',
        ],
{
    let mut u = String::from_str("https://");
    u.append(API_DOMAIN);
    u.append("/api/v0/request-device");
    proof {
        reveal_strlit("https://");
        reveal_strlit("/api/v0/request-device");
    }
    u
}

} // verus!
