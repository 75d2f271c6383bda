//! UDS (Unified Diagnostic Services, ISO 14229-1) server.
//!
//! The server decodes single-frame requests (first byte = service identifier)
//! and writes the response payload. It tracks the diagnostic session, the
//! security level and a tester-present liveness window.
use vstd::prelude::*;

verus! {

/// Maximum UDS payload size for a single CAN frame (ISO-TP single frame).
pub const UDS_MAX_PAYLOAD: usize = 7;

/// Number of `tick()` calls a session stays alive without a fresh TesterPresent.
pub const TESTER_PRESENT_TIMEOUT: u8 = 5;

/// UDS service identifiers (SID).
#[derive(Debug, Clone, Copy, PartialEq, Eq, Structural)]
#[non_exhaustive]
pub enum UdsService {
    /// Diagnostic Session Control (0x10).
    DiagnosticSessionControl,
    /// ECU Reset (0x11).
    EcuReset,
    /// Security Access (0x27).
    SecurityAccess,
    /// ReadDataByIdentifier (0x22).
    ReadDataByIdentifier,
    /// WriteDataByIdentifier (0x2E).
    WriteDataByIdentifier,
    /// TesterPresent (0x3E).
    TesterPresent,
}

/// Wire value of a service identifier.
pub open spec fn service_code(s: UdsService) -> u8 {
    match s {
        UdsService::DiagnosticSessionControl => 0x10,
        UdsService::EcuReset => 0x11,
        UdsService::SecurityAccess => 0x27,
        UdsService::ReadDataByIdentifier => 0x22,
        UdsService::WriteDataByIdentifier => 0x2E,
        UdsService::TesterPresent => 0x3E,
    }
}

/// The service a wire value names, if it is implemented.
pub open spec fn service_of(v: u8) -> Option<UdsService> {
    if v == 0x10 {
        Some(UdsService::DiagnosticSessionControl)
    } else if v == 0x11 {
        Some(UdsService::EcuReset)
    } else if v == 0x27 {
        Some(UdsService::SecurityAccess)
    } else if v == 0x22 {
        Some(UdsService::ReadDataByIdentifier)
    } else if v == 0x2E {
        Some(UdsService::WriteDataByIdentifier)
    } else if v == 0x3E {
        Some(UdsService::TesterPresent)
    } else {
        None
    }
}

impl UdsService {
    /// Encodes the SID as its wire value.
    pub fn to_u8(self) -> (r: u8)
        ensures
            r == service_code(self),
    {
        match self {
            UdsService::DiagnosticSessionControl => 0x10,
            UdsService::EcuReset => 0x11,
            UdsService::SecurityAccess => 0x27,
            UdsService::ReadDataByIdentifier => 0x22,
            UdsService::WriteDataByIdentifier => 0x2E,
            UdsService::TesterPresent => 0x3E,
        }
    }

    /// Decodes a SID, returning `None` for unimplemented services.
    pub fn from_u8(v: u8) -> (r: Option<UdsService>)
        ensures
            r == service_of(v),
    {
        match v {
            0x10 => Some(UdsService::DiagnosticSessionControl),
            0x11 => Some(UdsService::EcuReset),
            0x27 => Some(UdsService::SecurityAccess),
            0x22 => Some(UdsService::ReadDataByIdentifier),
            0x2E => Some(UdsService::WriteDataByIdentifier),
            0x3E => Some(UdsService::TesterPresent),
            _ => None,
        }
    }

    /// Returns the positive-response SID (request SID | 0x40).
    pub fn response_sid(self) -> (r: u8)
        ensures
            r == service_code(self) + 0x40,
    {
        let v = self.to_u8();
        assert(v | 0x40 == v + 0x40) by (bit_vector)
            requires
                v == 0x10 || v == 0x11 || v == 0x27 || v == 0x22 || v == 0x2E || v == 0x3E;
        v | 0x40
    }
}

/// Every implemented service decodes from its own code, and a wire value
/// that decodes names a service with that code.
pub proof fn lemma_service_code_round_trip(s: UdsService, v: u8)
    ensures
        service_of(service_code(s)) == Some(s),
        service_of(v) matches Some(t) ==> service_code(t) == v,
{
}

/// UDS negative response codes (NRC).
#[derive(Debug, Clone, Copy, PartialEq, Eq, Structural)]
#[non_exhaustive]
pub enum UdsNrc {
    /// Service not supported (0x11).
    ServiceNotSupported,
    /// Sub-function not supported (0x12).
    SubFunctionNotSupported,
    /// Conditions not correct (0x22).
    ConditionsNotCorrect,
    /// Request out of range (0x31).
    RequestOutOfRange,
    /// Security access denied (0x33).
    SecurityAccessDenied,
    /// Invalid key (0x35).
    InvalidKey,
    /// Request correctly received, response pending (0x78).
    RequestCorrectlyReceivedResponsePending,
}

/// Wire value of a negative response code.
pub open spec fn nrc_code(n: UdsNrc) -> u8 {
    match n {
        UdsNrc::ServiceNotSupported => 0x11,
        UdsNrc::SubFunctionNotSupported => 0x12,
        UdsNrc::ConditionsNotCorrect => 0x22,
        UdsNrc::RequestOutOfRange => 0x31,
        UdsNrc::SecurityAccessDenied => 0x33,
        UdsNrc::InvalidKey => 0x35,
        UdsNrc::RequestCorrectlyReceivedResponsePending => 0x78,
    }
}

impl UdsNrc {
    /// Encodes the NRC as its wire value.
    pub fn to_u8(self) -> (r: u8)
        ensures
            r == nrc_code(self),
    {
        match self {
            UdsNrc::ServiceNotSupported => 0x11,
            UdsNrc::SubFunctionNotSupported => 0x12,
            UdsNrc::ConditionsNotCorrect => 0x22,
            UdsNrc::RequestOutOfRange => 0x31,
            UdsNrc::SecurityAccessDenied => 0x33,
            UdsNrc::InvalidKey => 0x35,
            UdsNrc::RequestCorrectlyReceivedResponsePending => 0x78,
        }
    }
}

/// Diagnostic session types (sub-function of 0x10).
#[derive(Debug, Clone, Copy, PartialEq, Eq, Structural)]
pub enum UdsSession {
    /// Default session (0x01).
    Default,
    /// Extended diagnostic session (0x03).
    Extended,
}

/// The session a sub-function byte names.
pub open spec fn session_of(v: u8) -> Option<UdsSession> {
    if v == 0x01 {
        Some(UdsSession::Default)
    } else if v == 0x03 {
        Some(UdsSession::Extended)
    } else {
        None
    }
}

impl UdsSession {
    /// Decodes the sub-function byte.
    pub fn from_u8(v: u8) -> (r: Option<UdsSession>)
        ensures
            r == session_of(v),
    {
        match v {
            0x01 => Some(UdsSession::Default),
            0x03 => Some(UdsSession::Extended),
            _ => None,
        }
    }
}

/// Security access levels (sub-function of 0x27).
#[derive(Debug, Clone, Copy, PartialEq, Eq, Structural)]
pub enum UdsSecurityLevel {
    /// Locked (no elevated access).
    Locked,
    /// Unlocked (seed/key exchange succeeded).
    Unlocked,
}

/// Backend data source for `ReadDataByIdentifier` / `WriteDataByIdentifier`.
///
/// Implementors map data identifiers (DID) to readable/writable values.
pub trait UdsDataProvider: Sized {
    /// The number of bytes `did` reads, if it is readable. Implementations
    /// describe it; the default names no particular answer.
    open spec fn readable_len(&self, did: u16) -> Option<usize> {
        arbitrary()
    }

    /// The `len` bytes that reading `did` yields. Implementations describe
    /// them; the default names no particular bytes.
    open spec fn read_bytes(&self, did: u16, len: nat) -> Seq<u8> {
        arbitrary()
    }

    /// Returns `Some(len)` if `did` is readable, with the number of data bytes.
    fn did_read_len(&self, did: u16) -> (r: Option<usize>)
        ensures
            r == self.readable_len(did),
    ;

    /// Reads `out.len()` bytes for `did`. A slice keeps its length.
    fn did_read(&self, did: u16, out: &mut [u8])
        ensures
            final(out)@ == self.read_bytes(did, old(out)@.len()),
            final(out)@.len() == old(out)@.len(),
    ;

    /// Whether `after` and `accepted` are a possible outcome of writing `data`
    /// to `did` from this state. By default any outcome is possible.
    open spec fn writes(&self, did: u16, data: Seq<u8>, after: Self, accepted: bool) -> bool {
        true
    }

    /// Writes `data` to `did`. Returns `false` if the write is rejected.
    fn did_write(&mut self, did: u16, data: &[u8]) -> (r: bool)
        ensures
            old(self).writes(did, data@, *final(self), r),
    ;
}

/// The diagnostic state of a server: session, security level and the
/// remaining tester-present window.
pub struct UdsModel {
    /// The active session.
    pub session: UdsSession,
    /// The security level.
    pub security: UdsSecurityLevel,
    /// Ticks left before the server disarms, if a window is open.
    pub pending: Option<u8>,
}

/// DIDs in this range require an unlocked security level to read.
pub open spec fn reserved_did(did: u16) -> bool {
    0xF100 <= did <= 0xF1FF
}

/// The DID named by two big-endian bytes.
pub open spec fn did_of(hi: u8, lo: u8) -> u16 {
    (hi as nat * 256 + lo as nat) as u16
}

/// The `len` data bytes that reading `did` from `p` puts in a reply.
pub open spec fn did_data<D: UdsDataProvider>(p: D, did: u16, len: nat) -> Seq<u8> {
    Seq::new(len, |i: int| p.read_bytes(did, len)[i])
}

/// A negative response `7F sid nrc`, if `room` bytes can hold it.
pub open spec fn negative_reply(room: nat, sid: u8, nrc: UdsNrc) -> Option<Seq<u8>> {
    if room < 3 {
        None
    } else {
        Some(seq![0x7Fu8, sid, nrc_code(nrc)])
    }
}

/// A positive reply `b` that moves the server from `before` to `after`, if
/// `room` bytes can hold it; otherwise no reply and no change.
pub open spec fn positive_reply(room: nat, before: UdsModel, after: UdsModel, b: Seq<u8>) -> (
    UdsModel,
    Option<Seq<u8>>,
) {
    if b.len() <= room {
        (after, Some(b))
    } else {
        (before, None)
    }
}

/// What the server does with `req` in state `st`, given its data provider `p`,
/// `room` response bytes, and, for a write, whether the provider accepts it
/// (`write_ok`): the next state and the response bytes, if any.
pub open spec fn handle_step<D: UdsDataProvider>(
    st: UdsModel,
    p: D,
    req: Seq<u8>,
    room: nat,
    write_ok: bool,
) -> (UdsModel, Option<Seq<u8>>) {
    if req.len() == 0 {
        (st, None)
    } else {
        let sid = req[0];
        let params = req.drop_first();
        match service_of(sid) {
            None => (st, negative_reply(room, sid, UdsNrc::ServiceNotSupported)),
            Some(UdsService::TesterPresent) => {
                let sub: u8 = if params.len() > 0 { params[0] } else { 0 };
                if sub % 128 != 0 {
                    (st, negative_reply(room, sid, UdsNrc::SubFunctionNotSupported))
                } else {
                    positive_reply(room, st, UdsModel { pending: Some(TESTER_PRESENT_TIMEOUT), ..st },
                        seq![0x7Eu8, 0x00u8])
                }
            },
            Some(UdsService::DiagnosticSessionControl) => {
                if params.len() == 0 {
                    (st, None)
                } else {
                    match session_of(params[0]) {
                        None => (st, None),
                        Some(next) => positive_reply(room, st, UdsModel { session: next, ..st },
                            seq![0x50u8, params[0], 0x00u8, 0x32u8]),
                    }
                }
            },
            Some(UdsService::EcuReset) => {
                if params.len() == 0 {
                    (st, None)
                } else if params[0] != 0x01 {
                    (st, negative_reply(room, sid, UdsNrc::SubFunctionNotSupported))
                } else {
                    positive_reply(room, st,
                        UdsModel { session: UdsSession::Default, security: UdsSecurityLevel::Locked, ..st },
                        seq![0x51u8, 0x01u8])
                }
            },
            Some(UdsService::SecurityAccess) => {
                if params.len() == 0 {
                    (st, None)
                } else if params[0] == 0x01 {
                    positive_reply(room, st, st, seq![0x67u8, 0x01u8, 0xAAu8])
                } else if params[0] == 0x02 {
                    if params.len() < 2 {
                        (st, None)
                    } else if params[1] == 0x55 {
                        positive_reply(room, st, UdsModel { security: UdsSecurityLevel::Unlocked, ..st },
                            seq![0x67u8, 0x02u8])
                    } else {
                        (st, negative_reply(room, sid, UdsNrc::InvalidKey))
                    }
                } else {
                    (st, negative_reply(room, sid, UdsNrc::SubFunctionNotSupported))
                }
            },
            Some(UdsService::ReadDataByIdentifier) => {
                if params.len() < 2 {
                    (st, None)
                } else {
                    let did = did_of(params[0], params[1]);
                    match p.readable_len(did) {
                        None => (st, negative_reply(room, sid, UdsNrc::RequestOutOfRange)),
                        Some(len) => if len > UDS_MAX_PAYLOAD {
                            (st, negative_reply(room, sid, UdsNrc::RequestOutOfRange))
                        } else if st.security == UdsSecurityLevel::Locked && reserved_did(did) {
                            (st, negative_reply(room, sid, UdsNrc::SecurityAccessDenied))
                        } else if 3 + len > room {
                            (st, None)
                        } else {
                            (st, Some(seq![0x62u8, params[0], params[1]] + did_data(p, did, len as nat)))
                        },
                    }
                }
            },
            Some(UdsService::WriteDataByIdentifier) => {
                if st.security == UdsSecurityLevel::Locked {
                    (st, negative_reply(room, sid, UdsNrc::SecurityAccessDenied))
                } else if params.len() < 2 || room < 3 {
                    (st, None)
                } else if !write_ok {
                    (st, negative_reply(room, sid, UdsNrc::RequestOutOfRange))
                } else {
                    (st, Some(seq![0x6Eu8, params[0], params[1]]))
                }
            },
        }
    }
}

/// `resp2` and `r` are what the server leaves in the response buffer `resp`
/// and returns, and `st2` its next state, for `req` handled in state `st`.
pub open spec fn handled<D: UdsDataProvider>(
    st: UdsModel,
    p: D,
    req: Seq<u8>,
    resp: Seq<u8>,
    st2: UdsModel,
    resp2: Seq<u8>,
    r: Option<usize>,
    write_ok: bool,
) -> bool {
    let (s, reply) = handle_step(st, p, req, resp.len(), write_ok);
    &&& st2 == s
    &&& match reply {
        None => r is None && resp2 == resp,
        Some(b) => r == Some(b.len() as usize) && resp2 == b + resp.skip(b.len() as int),
    }
}

/// A WriteDataByIdentifier request.
pub open spec fn is_write_request(req: Seq<u8>) -> bool {
    req.len() > 0 && req[0] == 0x2E
}

/// A WriteDataByIdentifier request that reaches the data provider: the server
/// is unlocked, the request names a DID and `room` bytes can hold the reply.
pub open spec fn write_attempted(st: UdsModel, req: Seq<u8>, room: nat) -> bool {
    is_write_request(req) && st.security == UdsSecurityLevel::Unlocked && req.len() >= 3 && room >= 3
}

/// The tester-present watchdog advancing by one tick: the next state and
/// whether the server disarmed.
pub open spec fn tick_step(st: UdsModel) -> (UdsModel, bool) {
    match st.pending {
        Some(n) => if n <= 1 {
            (UdsModel { session: UdsSession::Default, security: UdsSecurityLevel::Locked, pending: None }, true)
        } else {
            (UdsModel { pending: Some((n - 1) as u8), ..st }, false)
        },
        None => (st, false),
    }
}

/// Writes `bytes` at the start of `response`.
fn write_reply(response: &mut [u8], bytes: &[u8]) -> (n: usize)
    requires
        bytes@.len() <= old(response)@.len(),
    ensures
        n == bytes@.len(),
        final(response)@ == bytes@ + old(response)@.skip(bytes@.len() as int),
{
    let mut i: usize = 0;
    while i < bytes.len()
        invariant
            i <= bytes@.len(),
            bytes@.len() <= response@.len(),
            response@ == bytes@.take(i as int) + old(response)@.skip(i as int),
            response@.len() == old(response)@.len(),
        decreases bytes@.len() - i,
    {
        let ghost prev = response@;
        response[i] = bytes[i];
        assert(response@ == prev.update(i as int, bytes@[i as int]));
        assert(response@ =~= bytes@.take(i + 1) + old(response)@.skip(i + 1)) by {
            assert(prev =~= bytes@.take(i as int) + old(response)@.skip(i as int));
            assert(prev.len() == old(response)@.len());
        }
        i = i + 1;
    }
    assert(bytes@.take(i as int) =~= bytes@);
    i
}

/// Writes a negative response `7F sid nrc` if the buffer can hold it.
fn negative(response: &mut [u8], sid: u8, nrc: UdsNrc) -> (r: Option<usize>)
    ensures
        match negative_reply(old(response)@.len(), sid, nrc) {
            None => r is None && final(response)@ == old(response)@,
            Some(b) => r == Some(b.len() as usize) && final(response)@ == b + old(response)@.skip(b.len() as int),
        },
{
    if response.len() < 3 {
        return None;
    }
    let bytes = [0x7F, sid, nrc.to_u8()];
    assert(bytes@ =~= seq![0x7Fu8, sid, nrc_code(nrc)]);
    Some(write_reply(response, &bytes))
}

/// A UDS server state machine.
///
/// Tracks the active diagnostic session, security level, and tester-present
/// liveness. Feed it request payloads via [`UdsServer::handle`].
pub struct UdsServer<D: UdsDataProvider> {
    data: D,
    session: UdsSession,
    security: UdsSecurityLevel,
    tester_present_pending: Option<u8>,
}

impl<D: UdsDataProvider> View for UdsServer<D> {
    type V = UdsModel;

    closed spec fn view(&self) -> UdsModel {
        UdsModel { session: self.session, security: self.security, pending: self.tester_present_pending }
    }
}

impl<D: UdsDataProvider> UdsServer<D> {
    /// The data provider behind the server.
    pub closed spec fn provider(&self) -> D {
        self.data
    }

    /// Creates a server starting in the default session, locked.
    pub fn new(data: D) -> (r: Self)
        ensures
            r@ == (UdsModel { session: UdsSession::Default, security: UdsSecurityLevel::Locked, pending: None }),
            r.provider() == data,
    {
        UdsServer {
            data,
            session: UdsSession::Default,
            security: UdsSecurityLevel::Locked,
            tester_present_pending: None,
        }
    }

    /// Returns the currently active session.
    pub fn session(&self) -> (r: UdsSession)
        ensures
            r == self@.session,
    {
        self.session
    }

    /// Returns the current security level.
    pub fn security(&self) -> (r: UdsSecurityLevel)
        ensures
            r == self@.security,
    {
        self.security
    }

    /// Returns `true` while a tester-present liveness window is active.
    pub fn is_held(&self) -> (r: bool)
        ensures
            r == self@.pending is Some,
    {
        self.tester_present_pending.is_some()
    }

    /// Advances the tester-present liveness watchdog by one tick.
    ///
    /// When the window set by the last `TesterPresent` elapses, the session
    /// reverts to default and security re-locks. Returns `true` if the server
    /// just disarmed.
    pub fn tick(&mut self) -> (r: bool)
        ensures
            (final(self)@, r) == tick_step(old(self)@),
            final(self).provider() == old(self).provider(),
    {
        match self.tester_present_pending {
            Some(0) => {
                self.session = UdsSession::Default;
                self.security = UdsSecurityLevel::Locked;
                self.tester_present_pending = None;
                true
            },
            Some(n) => {
                let next = n - 1;
                if next == 0 {
                    self.session = UdsSession::Default;
                    self.security = UdsSecurityLevel::Locked;
                    self.tester_present_pending = None;
                    true
                } else {
                    self.tester_present_pending = Some(next);
                    false
                }
            },
            None => false,
        }
    }

    /// Processes a UDS request payload and writes the response payload.
    ///
    /// `request`/`response` use the single-frame layout (first byte = SID).
    /// Returns the response length, or `None` when there is no response: an
    /// empty or malformed request, or a `response` too small for the reply
    /// (the server's state and the data provider are then left unchanged).
    pub fn handle(&mut self, request: &[u8], response: &mut [u8]) -> (r: Option<usize>)
        ensures
            exists|w: bool| #[trigger]
                handled(old(self)@, old(self).provider(), request@, old(response)@, final(self)@,
                    final(response)@, r, w) && (write_attempted(old(self)@, request@, old(response)@.len()) ==> old(
                    self,
                ).provider().writes(
                    did_of(request@[1], request@[2]),
                    request@.skip(3),
                    final(self).provider(),
                    w,
                )),
            !write_attempted(old(self)@, request@, old(response)@.len()) ==> final(self).provider() == old(self).provider(),
    {
        if request.len() == 0 {
            assert(handled(old(self)@, old(self).provider(), request@, old(response)@, self@, response@, None, false));
            return None;
        }
        let sid = request[0];
        let params = vstd::slice::slice_subrange(request, 1, request.len());
        assert(params@ =~= request@.drop_first());
        let service = match UdsService::from_u8(sid) {
            Some(s) => s,
            None => {
                let r = negative(response, sid, UdsNrc::ServiceNotSupported);
                assert(handled(old(self)@, old(self).provider(), request@, old(response)@, self@, response@, r, false));
                return r;
            },
        };
        let r = match service {
            UdsService::TesterPresent => self.handle_tester_present(sid, params, response),
            UdsService::DiagnosticSessionControl => self.handle_session_control(params, response),
            UdsService::EcuReset => self.handle_ecu_reset(sid, params, response),
            UdsService::SecurityAccess => self.handle_security_access(sid, params, response),
            UdsService::ReadDataByIdentifier => self.handle_read(sid, params, response),
            UdsService::WriteDataByIdentifier => {
                assert(request@ =~= seq![sid] + params@);
                let (r, ok) = self.handle_write(sid, params, response);
                assert(handled(old(self)@, old(self).provider(), request@, old(response)@, self@, response@, r, ok@));
                proof {
                    if write_attempted(old(self)@, request@, old(response)@.len()) {
                        assert(params@[0] == request@[1] && params@[1] == request@[2]);
                        assert(params@.skip(2) =~= request@.skip(3));
                    }
                }
                return r;
            },
        };
        assert(handled(old(self)@, old(self).provider(), request@, old(response)@, self@, response@, r, false));
        r
    }

    fn handle_tester_present(&mut self, sid: u8, params: &[u8], response: &mut [u8]) -> (r: Option<usize>)
        requires
            sid == 0x3E,
        ensures
            final(self).provider() == old(self).provider(),
            handled(old(self)@, old(self).provider(), seq![sid] + params@, old(response)@, final(self)@,
                final(response)@, r, false),
    {
        let ghost req = seq![sid] + params@;
        assert(req.drop_first() =~= params@);
        let sub = if params.len() > 0 { params[0] } else { 0 };
        assert(sub & 0x7F == sub % 128) by (bit_vector);
        if sub & 0x7F != 0x00 {
            return negative(response, sid, UdsNrc::SubFunctionNotSupported);
        }
        if response.len() < 2 {
            return None;
        }
        self.tester_present_pending = None;
        self.tester_present_pending = Some(TESTER_PRESENT_TIMEOUT);
        let bytes = [UdsService::TesterPresent.to_u8() + 0x40, 0x00];
        assert(bytes@ =~= seq![0x7Eu8, 0x00u8]);
        Some(write_reply(response, &bytes))
    }

    fn handle_session_control(&mut self, params: &[u8], response: &mut [u8]) -> (r: Option<usize>)
        ensures
            final(self).provider() == old(self).provider(),
            handled(old(self)@, old(self).provider(), seq![0x10u8] + params@, old(response)@, final(self)@,
                final(response)@, r, false),
    {
        let ghost req = seq![0x10u8] + params@;
        assert(req.drop_first() =~= params@);
        if params.len() == 0 {
            return None;
        }
        let sub = params[0];
        let next = match UdsSession::from_u8(sub) {
            Some(s) => s,
            None => return None,
        };
        if response.len() < 4 {
            return None;
        }
        self.session = next;
        let bytes = [UdsService::DiagnosticSessionControl.response_sid(), sub, 0x00, 0x32];
        assert(bytes@ =~= seq![0x50u8, sub, 0x00u8, 0x32u8]);
        Some(write_reply(response, &bytes))
    }

    fn handle_ecu_reset(&mut self, sid: u8, params: &[u8], response: &mut [u8]) -> (r: Option<usize>)
        requires
            sid == 0x11,
        ensures
            final(self).provider() == old(self).provider(),
            handled(old(self)@, old(self).provider(), seq![sid] + params@, old(response)@, final(self)@,
                final(response)@, r, false),
    {
        let ghost req = seq![sid] + params@;
        assert(req.drop_first() =~= params@);
        if params.len() == 0 {
            return None;
        }
        let sub = params[0];
        if sub != 0x01 {
            return negative(response, sid, UdsNrc::SubFunctionNotSupported);
        }
        if response.len() < 2 {
            return None;
        }
        self.session = UdsSession::Default;
        self.security = UdsSecurityLevel::Locked;
        let bytes = [UdsService::EcuReset.response_sid(), sub];
        assert(bytes@ =~= seq![0x51u8, 0x01u8]);
        Some(write_reply(response, &bytes))
    }

    fn handle_security_access(&mut self, sid: u8, params: &[u8], response: &mut [u8]) -> (r: Option<usize>)
        requires
            sid == 0x27,
        ensures
            final(self).provider() == old(self).provider(),
            handled(old(self)@, old(self).provider(), seq![sid] + params@, old(response)@, final(self)@,
                final(response)@, r, false),
    {
        let ghost req = seq![sid] + params@;
        assert(req.drop_first() =~= params@);
        if params.len() == 0 {
            return None;
        }
        let sub = params[0];
        if sub == 0x01 {
            if response.len() < 3 {
                return None;
            }
            let bytes = [UdsService::SecurityAccess.response_sid(), sub, 0xAA];
            assert(bytes@ =~= seq![0x67u8, 0x01u8, 0xAAu8]);
            Some(write_reply(response, &bytes))
        } else if sub == 0x02 {
            if params.len() < 2 {
                return None;
            }
            let key = params[1];
            let expected: u8 = 0xAA ^ 0xFF;
            assert(0xAAu8 ^ 0xFFu8 == 0x55u8) by (bit_vector);
            if key == expected {
                if response.len() < 2 {
                    return None;
                }
                self.security = UdsSecurityLevel::Unlocked;
                let bytes = [UdsService::SecurityAccess.response_sid(), sub];
                assert(bytes@ =~= seq![0x67u8, 0x02u8]);
                Some(write_reply(response, &bytes))
            } else {
                negative(response, sid, UdsNrc::InvalidKey)
            }
        } else {
            negative(response, sid, UdsNrc::SubFunctionNotSupported)
        }
    }

    fn handle_read(&mut self, sid: u8, params: &[u8], response: &mut [u8]) -> (r: Option<usize>)
        requires
            sid == 0x22,
        ensures
            final(self).provider() == old(self).provider(),
            handled(old(self)@, old(self).provider(), seq![sid] + params@, old(response)@, final(self)@,
                final(response)@, r, false),
    {
        let ghost req = seq![sid] + params@;
        assert(req.drop_first() =~= params@);
        if params.len() < 2 {
            return None;
        }
        let hi = params[0];
        let lo = params[1];
        let did: u16 = ((hi as u16) << 8) | (lo as u16);
        assert(((hi as u16) << 8) | (lo as u16) == did_of(hi, lo)) by (bit_vector);
        let len = match self.data.did_read_len(did) {
            Some(l) => l,
            None => return negative(response, sid, UdsNrc::RequestOutOfRange),
        };
        if len > UDS_MAX_PAYLOAD {
            return negative(response, sid, UdsNrc::RequestOutOfRange);
        }
        if self.security == UdsSecurityLevel::Locked && did_reserved(did) {
            return negative(response, sid, UdsNrc::SecurityAccessDenied);
        }
        if response.len() < 3 + len {
            return None;
        }
        let mut data = vec![0u8; len];
        self.data.did_read(did, data.as_mut_slice());
        assert(data@ =~= did_data(self.data, did, len as nat));
        let mut bytes: Vec<u8> = Vec::new();
        bytes.push(UdsService::ReadDataByIdentifier.response_sid());
        bytes.push(hi);
        bytes.push(lo);
        let mut i: usize = 0;
        while i < data.len()
            invariant
                i <= data@.len(),
                data@.len() == len,
                bytes@ == seq![0x62u8, hi, lo] + data@.take(i as int),
            decreases data@.len() - i,
        {
            bytes.push(data[i]);
            i = i + 1;
            assert(bytes@ =~= seq![0x62u8, hi, lo] + data@.take(i as int));
        }
        assert(data@.take(i as int) =~= data@);
        Some(write_reply(response, bytes.as_slice()))
    }

    fn handle_write(&mut self, sid: u8, params: &[u8], response: &mut [u8]) -> (res: (Option<usize>, Ghost<bool>))
        requires
            sid == 0x2E,
        ensures
            handled(old(self)@, old(self).provider(), seq![sid] + params@, old(response)@, final(self)@,
                final(response)@, res.0, res.1@),
            write_attempted(old(self)@, seq![sid] + params@, old(response)@.len()) ==> old(self).provider().writes(
                did_of(params@[0], params@[1]),
                params@.skip(2),
                final(self).provider(),
                res.1@,
            ),
            !write_attempted(old(self)@, seq![sid] + params@, old(response)@.len()) ==> final(self).provider() == old(
                self,
            ).provider(),
    {
        let ghost req = seq![sid] + params@;
        assert(req.drop_first() =~= params@);
        if self.security == UdsSecurityLevel::Locked {
            return (negative(response, sid, UdsNrc::SecurityAccessDenied), Ghost(false));
        }
        if params.len() < 2 || response.len() < 3 {
            return (None, Ghost(false));
        }
        let hi = params[0];
        let lo = params[1];
        let did: u16 = ((hi as u16) << 8) | (lo as u16);
        assert(((hi as u16) << 8) | (lo as u16) == (hi as nat * 256 + lo as nat) as u16) by (bit_vector);
        let data = vstd::slice::slice_subrange(params, 2, params.len());
        assert(data@ =~= params@.skip(2));
        if !self.data.did_write(did, data) {
            return (negative(response, sid, UdsNrc::RequestOutOfRange), Ghost(false));
        }
        let bytes = [UdsService::WriteDataByIdentifier.response_sid(), hi, lo];
        assert(bytes@ =~= seq![0x6Eu8, hi, lo]);
        (Some(write_reply(response, &bytes)), Ghost(true))
    }
}

/// DIDs in this reserved range require an unlocked security level to read.
fn did_reserved(did: u16) -> (r: bool)
    ensures
        r == reserved_did(did),
{
    0xF100 <= did && did <= 0xF1FF
}


/// The server state after `k` watchdog ticks.
pub open spec fn ticks(st: UdsModel, k: nat) -> UdsModel
    decreases k,
{
    if k == 0 {
        st
    } else {
        tick_step(ticks(st, (k - 1) as nat)).0
    }
}

proof fn lemma_ticks_before_expiry(st: UdsModel, m: u8, k: nat)
    requires
        st.pending == Some(m),
        k < m,
    ensures
        ticks(st, k) == (UdsModel { pending: Some((m - k) as u8), ..st }),
    decreases k,
{
    if k > 0 {
        lemma_ticks_before_expiry(st, m, (k - 1) as nat);
    }
}

/// Tester-present liveness: a window of `m` ticks keeps the session and the
/// security level through the first `m - 1` ticks, none of which reports a
/// disarm, and the `m`-th tick disarms the server back to the default,
/// locked state with no window left.
pub proof fn lemma_tester_present_window(st: UdsModel, m: u8)
    requires
        st.pending == Some(m),
        m >= 1,
    ensures
        forall|k: nat| k < m - 1 ==> {
            &&& !(#[trigger] tick_step(ticks(st, k))).1
            &&& ticks(st, k + 1).session == st.session
            &&& ticks(st, k + 1).security == st.security
            &&& ticks(st, k + 1).pending is Some
        },
        tick_step(ticks(st, (m - 1) as nat)).1,
        ticks(st, m as nat) == (UdsModel {
            session: UdsSession::Default,
            security: UdsSecurityLevel::Locked,
            pending: None,
        }),
{
    assert forall|k: nat| k < m - 1 implies {
        &&& !(#[trigger] tick_step(ticks(st, k))).1
        &&& ticks(st, k + 1).session == st.session
        &&& ticks(st, k + 1).security == st.security
        &&& ticks(st, k + 1).pending is Some
    } by {
        lemma_ticks_before_expiry(st, m, k);
        lemma_ticks_before_expiry(st, m, k + 1);
    }
    lemma_ticks_before_expiry(st, m, (m - 1) as nat);
    assert(ticks(st, m as nat) == tick_step(ticks(st, (m - 1) as nat)).0);
}

/// An accepted TesterPresent request opens a window of
/// [`TESTER_PRESENT_TIMEOUT`] ticks.
pub proof fn lemma_tester_present_opens_window<D: UdsDataProvider>(
    st: UdsModel,
    p: D,
    req: Seq<u8>,
    room: nat,
    w: bool,
)
    requires
        req.len() > 0,
        req[0] == 0x3E,
        handle_step(st, p, req, room, w).1 matches Some(b) && b[0] != 0x7F,
    ensures
        handle_step(st, p, req, room, w).0.pending == Some(TESTER_PRESENT_TIMEOUT),
{
}

/// Security guards: while the server is locked, no WriteDataByIdentifier
/// request is accepted (it is answered `7F 2E 33` when the buffer can hold
/// it), no DID of the reserved range `F100..F1FF` is read, and the only
/// request that unlocks the server is SecurityAccess send-key with the key
/// `0x55`.
pub proof fn lemma_locked_guards<D: UdsDataProvider>(st: UdsModel, p: D, req: Seq<u8>, room: nat, w: bool)
    requires
        st.security == UdsSecurityLevel::Locked,
    ensures
        is_write_request(req) ==> handle_step(st, p, req, room, w) == (st, negative_reply(
            room,
            0x2E,
            UdsNrc::SecurityAccessDenied,
        )),
        req.len() >= 3 && req[0] == 0x22 && reserved_did(did_of(req[1], req[2]))
            ==> !(handle_step(st, p, req, room, w).1 matches Some(b) && b[0] == 0x62),
        handle_step(st, p, req, room, w).0.security == UdsSecurityLevel::Unlocked ==> req.len() >= 3
            && req[0] == 0x27 && req[1] == 0x02 && req[2] == 0x55,
{
    if req.len() > 0 {
        assert(req.drop_first().len() == req.len() - 1);
        if req.len() >= 2 {
            assert(req.drop_first()[0] == req[1]);
        }
        if req.len() >= 3 {
            assert(req.drop_first()[1] == req[2]);
        }
    }
}

/// DiagnosticSessionControl: sub-function 0x01 returns the server to the
/// default session and 0x03 enters the extended one, each answered
/// `50 sub 00 32` when four bytes of room hold it; the security level and the
/// tester-present window are untouched. Any other sub-function is not
/// answered and changes nothing.
pub proof fn lemma_session_control_switches<D: UdsDataProvider>(
    st: UdsModel,
    p: D,
    req: Seq<u8>,
    room: nat,
    w: bool,
)
    requires
        req.len() >= 2,
        req[0] == 0x10,
    ensures
        req[1] == 0x01 && room >= 4 ==> handle_step(st, p, req, room, w) == (
            UdsModel { session: UdsSession::Default, security: st.security, pending: st.pending },
            Some(seq![0x50u8, 0x01u8, 0x00u8, 0x32u8]),
        ),
        req[1] == 0x03 && room >= 4 ==> handle_step(st, p, req, room, w) == (
            UdsModel { session: UdsSession::Extended, security: st.security, pending: st.pending },
            Some(seq![0x50u8, 0x03u8, 0x00u8, 0x32u8]),
        ),
        req[1] != 0x01 && req[1] != 0x03 ==> handle_step(st, p, req, room, w) == (st, None::<Seq<u8>>),
        room < 4 ==> handle_step(st, p, req, room, w) == (st, None::<Seq<u8>>),
{
    assert(req.drop_first()[0] == req[1]);
}

/// While the server is locked, no DID of the range 0xF100..=0xF1FF is read:
/// a ReadDataByIdentifier request for one never gets a positive (0x62)
/// reply, and when the DID is readable within the payload limit and three
/// bytes of room hold it, the answer is `7F 22 33` (security access denied).
pub proof fn lemma_locked_server_hides_f1_dids<D: UdsDataProvider>(
    st: UdsModel,
    p: D,
    req: Seq<u8>,
    room: nat,
    w: bool,
)
    requires
        st.security == UdsSecurityLevel::Locked,
        req.len() >= 3,
        req[0] == 0x22,
        0xF100 <= req[1] as int * 256 + req[2] as int <= 0xF1FF,
    ensures
        !(handle_step(st, p, req, room, w).1 matches Some(b) && b.len() > 0 && b[0] == 0x62),
        handle_step(st, p, req, room, w).0 == st,
        room >= 3 ==> (p.readable_len((req[1] as int * 256 + req[2] as int) as u16) matches Some(len)
            && len <= UDS_MAX_PAYLOAD ==> handle_step(st, p, req, room, w).1 == Some(
            seq![0x7Fu8, 0x22u8, 0x33u8],
        )),
{
    let params = req.drop_first();
    assert(params[0] == req[1] && params[1] == req[2]);
    assert(did_of(params[0], params[1]) == (req[1] as int * 256 + req[2] as int) as u16);
}

} // verus!
