//! The pairing session's state machine.
//!
//! The session owns the issued code and the mailbox of unclaimed messages.
//! The caller owns the duplex connection: it reads frames, hands the decoded
//! messages to the session and sends what the session prepares.
use vstd::prelude::*;
use crate::error::ApiError;
use crate::mailbox::{kind_of, first_index, ResponseKind, ResponseMailbox};
use crate::model::{ApiResponse, Device, DeviceResponse, LanUrlResponse, SpecificDeviceRequest};

verus! {

/// Where a pairing session stands. A session exists only once its code has
/// been issued; after any failure it is closed for good.
#[derive(Clone, Copy, Debug, PartialEq, Eq, Structural)]
pub enum SessionState {
    CodeIssued,
    AwaitingCandidate,
    CandidateConfirmed,
    Closed,
}

/// What a session holds, as values.
pub struct SessionView {
    pub code: Seq<char>,
    pub state: SessionState,
    pub pending: Seq<ApiResponse>,
}

/// Whether the out-of-band request's status lets pairing go on: any success
/// status (200 to 299), and 500, which the server answers although it has
/// accepted the request.
pub open spec fn status_accepted(status: u16) -> bool {
    (200 <= status && status < 300) || status == 500
}

/// The saved-device request proceeds on status 500 exactly as on status 200,
/// and stops on every other status outside 200 to 299.
pub proof fn lemma_server_error_status_proceeds(status: u16)
    ensures
        status_accepted(500) && status_accepted(200),
        status_accepted(status) <==> (200 <= status < 300 || status == 500),
{
}

/// A pairing session whose code has been issued.
pub struct PairingSession {
    code: String,
    state: SessionState,
    mailbox: ResponseMailbox,
}

impl View for PairingSession {
    type V = SessionView;

    closed spec fn view(&self) -> SessionView {
        SessionView { code: self.code@, state: self.state, pending: self.mailbox@ }
    }
}

impl PairingSession {
    /// Opens the session on the first message claimed from a new connection,
    /// which must be the pairing code. The mailbox keeps whatever arrived
    /// before it.
    pub fn start(mailbox: ResponseMailbox, first: ApiResponse) -> (r: Result<PairingSession, ApiError>)
        ensures
            match first {
                ApiResponse::Code(c) => r is Ok && r->Ok_0@ == (SessionView {
                    code: c.code@,
                    state: SessionState::CodeIssued,
                    pending: mailbox@,
                }),
                _ => r matches Err(ApiError::MalformedResponse),
            },
    {
        match first {
            ApiResponse::Code(c) => Ok(PairingSession { code: c.code, state: SessionState::CodeIssued, mailbox }),
            _ => Err(ApiError::MalformedResponse),
        }
    }

    /// The issued pairing code.
    pub fn code(&self) -> (r: &str)
        ensures
            r@ == self@.code,
    {
        self.code.as_str()
    }

    /// Where the session stands.
    pub fn state(&self) -> (r: SessionState)
        ensures
            r == self@.state,
    {
        self.state
    }

    /// Closes the session; every later step fails with `SessionClosed`.
    pub fn close(&mut self)
        ensures
            final(self)@ == (SessionView { state: SessionState::Closed, ..old(self)@ }),
    {
        self.state = SessionState::Closed;
    }

    /// Closes the session on a transport failure and hands the error back.
    pub fn fail(&mut self, e: ApiError) -> (r: ApiError)
        ensures
            r == e,
            final(self)@ == (SessionView { state: SessionState::Closed, ..old(self)@ }),
    {
        self.state = SessionState::Closed;
        e
    }

    /// The connection ended while a message was awaited.
    pub fn connection_closed(&mut self) -> (r: ApiError)
        ensures
            r matches ApiError::ConnectionClosed,
            final(self)@ == (SessionView { state: SessionState::Closed, ..old(self)@ }),
    {
        self.state = SessionState::Closed;
        ApiError::ConnectionClosed
    }

    /// Begins a wait for kind `k`: claims the earliest buffered message of
    /// that kind, if there is one.
    pub fn take_buffered(&mut self, k: ResponseKind) -> (r: Result<Option<ApiResponse>, ApiError>)
        ensures
            old(self)@.state == SessionState::Closed ==> (r matches Err(ApiError::SessionClosed))
                && final(self)@ == old(self)@,
            old(self)@.state != SessionState::Closed ==> ({
                let i = first_index(old(self)@.pending, k);
                &&& r is Ok
                &&& final(self)@.code == old(self)@.code
                &&& final(self)@.state == old(self)@.state
                &&& i >= 0 ==> r->Ok_0 == Some(old(self)@.pending[i])
                    && final(self)@.pending == old(self)@.pending.remove(i)
                &&& i < 0 ==> r->Ok_0.is_none() && final(self)@.pending == old(self)@.pending
            }),
    {
        if self.state == SessionState::Closed {
            return Err(ApiError::SessionClosed);
        }
        Ok(self.mailbox.take_buffered(k))
    }

    /// Hands over a message read from the wire during a wait for kind `k`:
    /// it is returned if it matches, else buffered for a later wait.
    pub fn offer(&mut self, k: ResponseKind, msg: ApiResponse) -> (r: Result<Option<ApiResponse>, ApiError>)
        ensures
            old(self)@.state == SessionState::Closed ==> (r matches Err(ApiError::SessionClosed))
                && final(self)@ == old(self)@,
            old(self)@.state != SessionState::Closed ==> {
                &&& r is Ok
                &&& final(self)@.code == old(self)@.code
                &&& final(self)@.state == old(self)@.state
                &&& kind_of(msg) == k ==> r->Ok_0 == Some(msg) && final(self)@.pending
                    == old(self)@.pending
                &&& kind_of(msg) != k ==> r->Ok_0.is_none() && final(self)@.pending
                    == old(self)@.pending.push(msg)
            },
    {
        if self.state == SessionState::Closed {
            return Err(ApiError::SessionClosed);
        }
        Ok(self.mailbox.offer(k, msg))
    }

    /// Starts waiting for a device to pair with the code.
    pub fn begin_candidate_by_code(&mut self) -> (r: Result<(), ApiError>)
        ensures
            old(self)@.state == SessionState::Closed ==> (r matches Err(ApiError::SessionClosed))
                && final(self)@ == old(self)@,
            old(self)@.state != SessionState::Closed ==> r is Ok && final(self)@ == (SessionView {
                state: SessionState::AwaitingCandidate,
                ..old(self)@
            }),
    {
        if self.state == SessionState::Closed {
            return Err(ApiError::SessionClosed);
        }
        self.state = SessionState::AwaitingCandidate;
        Ok(())
    }

    /// Prepares the out-of-band request that asks a saved device to pair:
    /// the session's code and the device's request form. The device must
    /// have an id.
    pub fn saved_device_request(&mut self, device: &Device) -> (r: Result<SpecificDeviceRequest, ApiError>)
        ensures
            old(self)@.state == SessionState::Closed ==> (r matches Err(ApiError::SessionClosed))
                && final(self)@ == old(self)@,
            old(self)@.state != SessionState::Closed && device.id.is_none() ==> (r matches Err(
                ApiError::DeviceIdMissing,
            )) && final(self)@ == (SessionView { state: SessionState::Closed, ..old(self)@ }),
            old(self)@.state != SessionState::Closed && device.id.is_some() ==> {
                &&& r is Ok
                &&& r->Ok_0.code@ == old(self)@.code
                &&& r->Ok_0.push_token.name.is_none()
                &&& r->Ok_0.push_token.id.is_none()
                &&& r->Ok_0.push_token.user@ == device.user@
                &&& r->Ok_0.push_token.device@ == device.device@
                &&& final(self)@ == (SessionView {
                    state: SessionState::AwaitingCandidate,
                    ..old(self)@
                })
            },
    {
        if self.state == SessionState::Closed {
            return Err(ApiError::SessionClosed);
        }
        if device.id.is_none() {
            self.state = SessionState::Closed;
            return Err(ApiError::DeviceIdMissing);
        }
        self.state = SessionState::AwaitingCandidate;
        Ok(SpecificDeviceRequest { code: self.code.clone(), push_token: device.for_request() })
    }

    /// Judges the status of the out-of-band request: a success status and
    /// 500 let pairing go on, any other status ends the session.
    pub fn accept_request_status(&mut self, status: u16) -> (r: Result<(), ApiError>)
        ensures
            old(self)@.state == SessionState::Closed ==> (r matches Err(ApiError::SessionClosed))
                && final(self)@ == old(self)@,
            old(self)@.state != SessionState::Closed && status_accepted(status) ==> r is Ok
                && final(self)@ == old(self)@,
            old(self)@.state != SessionState::Closed && !status_accepted(status) ==> (r matches Err(
                ApiError::BadResponse(s),
            ) && s == status) && final(self)@ == (SessionView {
                state: SessionState::Closed,
                ..old(self)@
            }),
    {
        if self.state == SessionState::Closed {
            return Err(ApiError::SessionClosed);
        }
        if (200 <= status && status < 300) || status == 500 {
            Ok(())
        } else {
            self.state = SessionState::Closed;
            Err(ApiError::BadResponse(status))
        }
    }

    /// Takes the candidate out of the message claimed by a wait for a device.
    pub fn accept_candidate(&mut self, msg: ApiResponse) -> (r: Result<DeviceResponse, ApiError>)
        ensures
            old(self)@.state == SessionState::Closed ==> (r matches Err(ApiError::SessionClosed))
                && final(self)@ == old(self)@,
            old(self)@.state != SessionState::Closed ==> match msg {
                ApiResponse::Device(d) => r == Ok::<DeviceResponse, ApiError>(d) && final(self)@
                    == old(self)@,
                _ => (r matches Err(ApiError::MalformedResponse)) && final(self)@ == (SessionView {
                    state: SessionState::Closed,
                    ..old(self)@
                }),
            },
    {
        if self.state == SessionState::Closed {
            return Err(ApiError::SessionClosed);
        }
        match msg {
            ApiResponse::Device(d) => Ok(d),
            _ => {
                self.state = SessionState::Closed;
                Err(ApiError::MalformedResponse)
            },
        }
    }

    /// Takes the candidate that answered a saved-device request, which must
    /// be the requested device: a candidate with another id is refused.
    pub fn accept_saved_candidate(&mut self, device: &Device, msg: ApiResponse) -> (r: Result<
        DeviceResponse,
        ApiError,
    >)
        ensures
            old(self)@.state == SessionState::Closed ==> (r matches Err(ApiError::SessionClosed))
                && final(self)@ == old(self)@,
            old(self)@.state != SessionState::Closed ==> match msg {
                ApiResponse::Device(d) => match device.id {
                    Some(id) => if d.id@ == id@ {
                        r == Ok::<DeviceResponse, ApiError>(d) && final(self)@ == old(self)@
                    } else {
                        (r matches Err(ApiError::UnexpectedDevice)) && final(self)@ == (
                        SessionView { state: SessionState::Closed, ..old(self)@ })
                    },
                    None => (r matches Err(ApiError::DeviceIdMissing)) && final(self)@ == (
                    SessionView { state: SessionState::Closed, ..old(self)@ }),
                },
                _ => (r matches Err(ApiError::MalformedResponse)) && final(self)@ == (SessionView {
                    state: SessionState::Closed,
                    ..old(self)@
                }),
            },
    {
        let d = match self.accept_candidate(msg) {
            Ok(d) => d,
            Err(e) => return Err(e),
        };
        match &device.id {
            Some(id) => {
                if d.id == *id {
                    Ok(d)
                } else {
                    self.state = SessionState::Closed;
                    Err(ApiError::UnexpectedDevice)
                }
            },
            None => {
                self.state = SessionState::Closed;
                Err(ApiError::DeviceIdMissing)
            },
        }
    }

    /// Marks the candidate as confirmed, with whether the controller has it
    /// saved already; the caller then sends it back to the server.
    pub fn confirm_candidate(&mut self, candidate: &mut DeviceResponse, is_saved: bool) -> (r: Result<(), ApiError>)
        ensures
            old(self)@.state == SessionState::Closed ==> (r matches Err(ApiError::SessionClosed))
                && final(self)@ == old(self)@ && *final(candidate) == *old(candidate),
            old(self)@.state != SessionState::Closed ==> {
                &&& r is Ok
                &&& final(self)@ == old(self)@
                &&& final(candidate).is_saved == Some(is_saved)
                &&& final(candidate).id == old(candidate).id
                &&& final(candidate).device_type == old(candidate).device_type
            },
    {
        if self.state == SessionState::Closed {
            return Err(ApiError::SessionClosed);
        }
        candidate.is_saved = Some(is_saved);
        Ok(())
    }

    /// Takes the device's LAN URL out of the message claimed by a wait for
    /// it, which completes the pairing.
    pub fn accept_locator(&mut self, msg: ApiResponse) -> (r: Result<LanUrlResponse, ApiError>)
        ensures
            old(self)@.state == SessionState::Closed ==> (r matches Err(ApiError::SessionClosed))
                && final(self)@ == old(self)@,
            old(self)@.state != SessionState::Closed ==> match msg {
                ApiResponse::LanUrl(l) => r == Ok::<LanUrlResponse, ApiError>(l) && final(self)@
                    == (SessionView { state: SessionState::CandidateConfirmed, ..old(self)@ }),
                _ => (r matches Err(ApiError::MalformedResponse)) && final(self)@ == (SessionView {
                    state: SessionState::Closed,
                    ..old(self)@
                }),
            },
    {
        if self.state == SessionState::Closed {
            return Err(ApiError::SessionClosed);
        }
        match msg {
            ApiResponse::LanUrl(l) => {
                self.state = SessionState::CandidateConfirmed;
                Ok(l)
            },
            _ => {
                self.state = SessionState::Closed;
                Err(ApiError::MalformedResponse)
            },
        }
    }
}

} // verus!
