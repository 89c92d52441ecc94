//! A minimal UDS (ISO 14229) diagnostic server.

use vstd::prelude::*;

verus! {

/// The diagnostic session the server is in.
#[derive(PartialEq, Eq, Structural, Clone, Copy, Debug)]
pub enum DiagnosticSession {
    Default,
    Programming,
    Extended,
}

/// The identifier of the vehicle identification number.
pub const DID_VIN: u16 = 0xF190;

/// Negative response code: service not supported.
pub const NRC_SERVICE_NOT_SUPPORTED: u8 = 0x11;

/// Negative response code: sub-function not supported.
pub const NRC_SUB_FUNCTION_NOT_SUPPORTED: u8 = 0x12;

/// Negative response code: incorrect message length or invalid format.
pub const NRC_INCORRECT_LENGTH: u8 = 0x13;

/// Negative response code: request out of range.
pub const NRC_REQUEST_OUT_OF_RANGE: u8 = 0x31;

/// The session that a DiagnosticSessionControl sub-function selects, if any.
pub open spec fn requested_session(sub_function: u8) -> Option<DiagnosticSession> {
    if sub_function == 0x01 {
        Some(DiagnosticSession::Default)
    } else if sub_function == 0x02 {
        Some(DiagnosticSession::Programming)
    } else if sub_function == 0x03 {
        Some(DiagnosticSession::Extended)
    } else {
        None
    }
}

/// A negative response to service `sid` with code `nrc`.
pub open spec fn negative(sid: u8, nrc: u8) -> Seq<u8> {
    seq![0x7Fu8, sid, nrc]
}

/// The response to a DiagnosticSessionControl payload.
pub open spec fn session_control_response(payload: Seq<u8>) -> Seq<u8> {
    if payload.len() == 0 || requested_session(payload[0]) is None {
        negative(0x10, NRC_SUB_FUNCTION_NOT_SUPPORTED)
    } else {
        seq![0x50u8, payload[0]]
    }
}

/// The response to a ReadDataByIdentifier payload.
pub open spec fn read_did_response(payload: Seq<u8>) -> Seq<u8> {
    if payload.len() < 2 {
        negative(0x22, NRC_INCORRECT_LENGTH)
    } else if payload[0] as int * 256 + payload[1] as int == DID_VIN as int {
        seq![0x62u8, 0xF1u8, 0x90u8, 0x56u8, 0x49u8, 0x4Eu8, 0x31u8, 0x32u8, 0x33u8]
    } else {
        negative(0x22, NRC_REQUEST_OUT_OF_RANGE)
    }
}

/// The response to a non-empty request.
pub open spec fn uds_response(request: Seq<u8>) -> Seq<u8>
    recommends
        request.len() > 0,
{
    let sid = request[0];
    let payload = request.subrange(1, request.len() as int);
    if sid == 0x10 {
        session_control_response(payload)
    } else if sid == 0x22 {
        read_did_response(payload)
    } else if sid == 0x19 {
        seq![0x59u8, 0x02u8, 0xFFu8]
    } else if sid == 0x14 {
        seq![0x54u8]
    } else {
        negative(sid, NRC_SERVICE_NOT_SUPPORTED)
    }
}

/// The session after a non-empty request has been handled in `session`.
pub open spec fn session_after(session: DiagnosticSession, request: Seq<u8>) -> DiagnosticSession
    recommends
        request.len() > 0,
{
    if request[0] == 0x10 && request.len() > 1 && requested_session(request[1]) is Some {
        requested_session(request[1])->0
    } else {
        session
    }
}

/// A UDS server that keeps the active diagnostic session.
pub struct UdsServer {
    session: DiagnosticSession,
    security_level: u8,
}

impl UdsServer {
    /// The active diagnostic session.
    pub closed spec fn session(&self) -> DiagnosticSession {
        self.session
    }

    /// The security access level that has been unlocked.
    pub closed spec fn security_level(&self) -> u8 {
        self.security_level
    }

    /// A server in the default session with security locked.
    pub fn new() -> (s: Self)
        ensures
            s.session() == DiagnosticSession::Default,
            s.security_level() == 0,
    {
        UdsServer { session: DiagnosticSession::Default, security_level: 0 }
    }

    /// The active diagnostic session.
    pub fn current_session(&self) -> (s: DiagnosticSession)
        ensures
            s == self.session(),
    {
        self.session
    }

    /// Handles one request and returns its response. An empty request has
    /// no service identifier to answer to and is not accepted.
    pub fn handle_request(&mut self, request: &[u8]) -> (response: Vec<u8>)
        requires
            request@.len() > 0,
        ensures
            response@ == uds_response(request@),
            final(self).session() == session_after(old(self).session(), request@),
            final(self).security_level() == old(self).security_level(),
    {
        let service_id = request[0];
        let payload = &request[1..request.len()];
        if service_id == 0x10 {
            self.handle_diagnostic_session_control(payload)
        } else if service_id == 0x22 {
            self.handle_read_data_by_identifier(payload)
        } else if service_id == 0x19 {
            self.handle_read_dtcs(payload)
        } else if service_id == 0x14 {
            self.handle_clear_dtcs(payload)
        } else {
            vec![0x7F, service_id, NRC_SERVICE_NOT_SUPPORTED]
        }
    }

    fn handle_diagnostic_session_control(&mut self, payload: &[u8]) -> (response: Vec<u8>)
        ensures
            response@ == session_control_response(payload@),
            final(self).session() == (if payload@.len() > 0 && requested_session(payload@[0]) is Some {
                requested_session(payload@[0])->0
            } else {
                old(self).session()
            }),
            final(self).security_level() == old(self).security_level(),
    {
        if payload.len() == 0 {
            return vec![0x7F, 0x10, NRC_SUB_FUNCTION_NOT_SUPPORTED];
        }
        let sub_function = payload[0];
        if sub_function == 0x01 {
            self.session = DiagnosticSession::Default;
        } else if sub_function == 0x02 {
            self.session = DiagnosticSession::Programming;
        } else if sub_function == 0x03 {
            self.session = DiagnosticSession::Extended;
        } else {
            return vec![0x7F, 0x10, NRC_SUB_FUNCTION_NOT_SUPPORTED];
        }
        vec![0x50, sub_function]
    }

    fn handle_read_data_by_identifier(&self, payload: &[u8]) -> (response: Vec<u8>)
        ensures
            response@ == read_did_response(payload@),
    {
        if payload.len() < 2 {
            return vec![0x7F, 0x22, NRC_INCORRECT_LENGTH];
        }
        let did: u16 = (payload[0] as u16) * 256 + (payload[1] as u16);
        if did == DID_VIN {
            vec![0x62, 0xF1, 0x90, 0x56, 0x49, 0x4E, 0x31, 0x32, 0x33]
        } else {
            vec![0x7F, 0x22, NRC_REQUEST_OUT_OF_RANGE]
        }
    }

    fn handle_read_dtcs(&self, _payload: &[u8]) -> (response: Vec<u8>)
        ensures
            response@ == seq![0x59u8, 0x02u8, 0xFFu8],
    {
        vec![0x59, 0x02, 0xFF]
    }

    fn handle_clear_dtcs(&self, _payload: &[u8]) -> (response: Vec<u8>)
        ensures
            response@ == seq![0x54u8],
    {
        vec![0x54]
    }
}

/// Every response either echoes the service identifier plus 0x40 (a
/// positive response) or is a three-byte negative response naming the
/// requested service.
pub proof fn lemma_response_names_service(request: Seq<u8>)
    requires
        request.len() > 0,
    ensures
        uds_response(request).len() > 0,
        uds_response(request)[0] == request[0] + 0x40 || (
            uds_response(request) == negative(request[0], uds_response(request)[2])
        ),
{
}

/// Only DiagnosticSessionControl changes the session; every other service
/// leaves it unchanged.
pub proof fn lemma_only_session_control_changes_session(session: DiagnosticSession, request: Seq<u8>)
    requires
        request.len() > 0,
        request[0] != 0x10,
    ensures
        session_after(session, request) == session,
{
}

/// A session change is acknowledged by a positive response carrying the
/// sub-function, and a negative response never changes the session.
pub proof fn lemma_session_change_is_acknowledged(session: DiagnosticSession, request: Seq<u8>)
    requires
        request.len() > 0,
    ensures
        session_after(session, request) != session ==> uds_response(request) == seq![0x50u8, request[1]],
        uds_response(request)[0] == 0x7F ==> session_after(session, request) == session,
{
}

/// A DiagnosticSessionControl request for sub-function 0x01, 0x02 or 0x03 is
/// answered `[0x50, sub-function]` and puts the server in the Default,
/// Programming or Extended session respectively, whatever the session
/// before: a positive answer always comes with the session change.
pub proof fn lemma_session_control_switches(session: DiagnosticSession, request: Seq<u8>)
    requires
        request.len() >= 2,
        request[0] == 0x10,
        1 <= request[1] <= 3,
    ensures
        uds_response(request) == seq![0x50u8, request[1]],
        session_after(session, request) == (if request[1] == 0x01 {
            DiagnosticSession::Default
        } else if request[1] == 0x02 {
            DiagnosticSession::Programming
        } else {
            DiagnosticSession::Extended
        }),
{
    assert(request.subrange(1, request.len() as int)[0] == request[1]);
}

} // verus!

