//! The login session: who is logged in, the secrets the server handed out,
//! the outbound sequence counter, and the packets that depend on them.
//!
//! Server responses are applied as events. A successful login or a confirmed
//! QR-code login authenticates the engine; every post-login packet is refused
//! before that. A packet sealed with the session key needs the secrets of a
//! successful login.
use vstd::prelude::*;

use crate::device::Device;
use crate::packet::{
    encrypt_type_of, packet_type_of, CodecError, EncryptType, Packet, PacketType, PacketView,
};
use crate::wire::{get_be32, read_be32};

verus! {

/// The client variant the engine presents itself as.
#[derive(Clone, Copy, Debug, PartialEq, Eq, Structural)]
pub enum Protocol {
    IPad,
    AndroidPhone,
    AndroidWatch,
    MacOS,
    QiDian,
}

pub open spec fn protocol_of(code: i32) -> Protocol {
    if code == 1 {
        Protocol::AndroidPhone
    } else if code == 2 {
        Protocol::AndroidWatch
    } else if code == 3 {
        Protocol::MacOS
    } else if code == 4 {
        Protocol::QiDian
    } else {
        Protocol::IPad
    }
}

impl Protocol {
    /// The variant with this number; any number but 1 to 4 selects the tablet.
    pub fn from_code(code: i32) -> (r: Protocol)
        ensures
            r == protocol_of(code),
    {
        if code == 1 {
            Protocol::AndroidPhone
        } else if code == 2 {
            Protocol::AndroidWatch
        } else if code == 3 {
            Protocol::MacOS
        } else if code == 4 {
            Protocol::QiDian
        } else {
            Protocol::IPad
        }
    }
}

/// Where a QR-code login stands, as the server reports it.
#[derive(Clone, Debug, PartialEq, Eq)]
pub enum QRCodeState {
    ImageFetch { sig: Vec<u8>, image: Vec<u8> },
    WaitingForScan,
    WaitingForConfirm,
    Timeout,
    Canceled,
    Confirmed {
        uin: i64,
        tmp_pwd: Vec<u8>,
        tmp_no_pic_sig: Vec<u8>,
        tgt_qr: Vec<u8>,
        tgtgt_key: Vec<u8>,
    },
}

#[derive(Clone, Debug, PartialEq, Eq)]
pub struct AccountInfo {
    pub nick: String,
    pub age: u8,
    pub gender: u8,
}

/// The secrets of an established session. A secret the server did not send
/// is empty.
#[derive(Clone, Debug, PartialEq, Eq)]
pub struct Session {
    pub d2: Vec<u8>,
    pub d2key: Vec<u8>,
    pub tgt: Vec<u8>,
    pub tgt_key: Vec<u8>,
}

/// The outcome of a password or QR-code login attempt.
#[derive(Clone, Debug, PartialEq, Eq)]
pub enum LoginResponse {
    /// Logged in to account `uin`.
    Success { uin: i64, account_info: AccountInfo, session: Session },
    /// Another login packet is needed before the server answers.
    DeviceLockLogin,
    AccountFrozen,
    TooManySMSRequest,
    DeviceLocked {
        sms_phone: Option<String>,
        verify_url: Option<String>,
        message: Option<String>,
    },
    NeedCaptcha { verify_url: Option<String> },
    /// A status with no variant of its own, with the server's text.
    UnknownStatus { status: u8, message: String },
}

#[derive(Clone, Copy, Debug, PartialEq, Eq, Structural)]
pub enum EngineError {
    /// A post-login packet was asked for before a login succeeded.
    NotAuthenticated,
}

/// What a confirmed QR-code login hands the engine for the login that follows.
struct QrGrant {
    tmp_pwd: Vec<u8>,
    tmp_no_pic_sig: Vec<u8>,
    tgtgt_key: Vec<u8>,
}

/// Length of the two tags that open every packet header.
pub const TAGS_LEN: usize = 5;

/// The sequence number of the first packet an engine sends.
pub const FIRST_SEQ: u16 = 0x3635;

/// A login engine for one device: the account, the outbound sequence
/// counter, and the secrets that logins hand out.
pub struct Engine {
    device: Device,
    protocol: Protocol,
    uin: i64,
    seq: u16,
    qr_grant: Option<QrGrant>,
    session: Option<Session>,
}

fn copy_bytes(b: &Vec<u8>) -> (r: Vec<u8>)
    ensures
        r@ == b@,
{
    vstd::slice::slice_to_vec(b.as_slice())
}

fn copy_session(s: &Session) -> (r: Session)
    ensures
        r.d2@ == s.d2@,
        r.d2key@ == s.d2key@,
        r.tgt@ == s.tgt@,
        r.tgt_key@ == s.tgt_key@,
{
    Session {
        d2: copy_bytes(&s.d2),
        d2key: copy_bytes(&s.d2key),
        tgt: copy_bytes(&s.tgt),
        tgt_key: copy_bytes(&s.tgt_key),
    }
}

impl Engine {
    pub closed spec fn spec_device(&self) -> Device {
        self.device
    }

    pub closed spec fn spec_protocol(&self) -> Protocol {
        self.protocol
    }

    pub closed spec fn spec_uin(&self) -> i64 {
        self.uin
    }

    /// The sequence number the next outbound packet takes.
    pub closed spec fn spec_seq(&self) -> u16 {
        self.seq
    }

    /// The secrets of the last QR-code confirmation: tmp_pwd,
    /// tmp_no_pic_sig, tgtgt_key.
    pub closed spec fn spec_qr_grant(&self) -> Option<(Seq<u8>, Seq<u8>, Seq<u8>)> {
        match self.qr_grant {
            Some(g) => Some((g.tmp_pwd@, g.tmp_no_pic_sig@, g.tgtgt_key@)),
            None => None,
        }
    }


    /// The session secrets, as byte sequences: d2, d2key, tgt, tgt_key.
    pub closed spec fn spec_session(&self) -> Option<(Seq<u8>, Seq<u8>, Seq<u8>, Seq<u8>)> {
        match self.session {
            Some(s) => Some((s.d2@, s.d2key@, s.tgt@, s.tgt_key@)),
            None => None,
        }
    }

    /// A login has succeeded or a QR-code login has been confirmed.
    pub open spec fn logged_in(&self) -> bool {
        self.spec_session() is Some || self.spec_qr_grant() is Some
    }

    /// A successful login has handed out the session key.
    pub open spec fn has_session_key(&self) -> bool {
        self.spec_session() is Some
    }

    /// The session key; empty before a login.
    pub open spec fn spec_d2key(&self) -> Seq<u8> {
        match self.spec_session() {
            Some(s) => s.1,
            None => Seq::empty(),
        }
    }

    /// The key for an encrypt type: none for the clear, sixteen zero bytes
    /// for the fixed key, the session key once a login has handed it out.
    pub open spec fn key_for(&self, et: EncryptType) -> Result<Option<Seq<u8>>, CodecError> {
        match et {
            EncryptType::NoEncrypt => Ok(None),
            EncryptType::EmptyKey => Ok(Some(Seq::new(16, |i: int| 0u8))),
            EncryptType::D2Key => if self.has_session_key() {
                Ok(Some(self.spec_d2key()))
            } else {
                Err(CodecError::MissingSessionKey)
            },
        }
    }

    /// An engine for this device and variant, with no account and no session.
    pub fn new(device: Device, protocol: Protocol) -> (r: Engine)
        ensures
            r.spec_device() == device,
            r.spec_protocol() == protocol,
            r.spec_uin() == 0,
            r.spec_seq() == FIRST_SEQ,
            r.spec_qr_grant() is None,
            !r.logged_in(),
    {
        Engine { device, protocol, uin: 0, seq: FIRST_SEQ, qr_grant: None, session: None }
    }

    pub fn device(&self) -> (r: &Device)
        ensures
            *r == self.spec_device(),
    {
        &self.device
    }

    pub fn protocol(&self) -> (r: Protocol)
        ensures
            r == self.spec_protocol(),
    {
        self.protocol
    }

    pub fn uin(&self) -> (r: i64)
        ensures
            r == self.spec_uin(),
    {
        self.uin
    }

    /// Sets the account, as before a password login of a known account.
    pub fn set_uin(&mut self, value: i64)
        ensures
            final(self).spec_uin() == value,
            final(self).spec_seq() == old(self).spec_seq(),
            final(self).spec_qr_grant() == old(self).spec_qr_grant(),
            final(self).spec_session() == old(self).spec_session(),
            final(self).logged_in() == old(self).logged_in(),
            final(self).spec_device() == old(self).spec_device(),
            final(self).spec_protocol() == old(self).spec_protocol(),
    {
        self.uin = value;
    }

    /// A QR-code confirmation has been applied.
    pub fn has_qr_grant(&self) -> (r: bool)
        ensures
            r == self.spec_qr_grant() is Some,
    {
        self.qr_grant.is_some()
    }

    pub fn is_logged_in(&self) -> (r: bool)
        ensures
            r == self.logged_in(),
    {
        self.session.is_some() || self.qr_grant.is_some()
    }

    pub fn has_session(&self) -> (r: bool)
        ensures
            r == self.has_session_key(),
    {
        self.session.is_some()
    }

    /// Takes the next sequence number; the counter wraps.
    pub fn next_seq(&mut self) -> (r: u16)
        ensures
            r == old(self).spec_seq(),
            final(self).spec_seq() == (if r == u16::MAX { 0 } else { (r + 1) as u16 }),
            final(self).spec_uin() == old(self).spec_uin(),
            final(self).spec_qr_grant() == old(self).spec_qr_grant(),
            final(self).spec_session() == old(self).spec_session(),
            final(self).logged_in() == old(self).logged_in(),
            final(self).spec_device() == old(self).spec_device(),
            final(self).spec_protocol() == old(self).spec_protocol(),
    {
        let r = self.seq;
        self.seq = if r == u16::MAX { 0 } else { r + 1 };
        r
    }

    /// Applies a QR-code state reported by the server. A confirmation sets the
    /// account, keeps its secrets and authenticates the engine; every other
    /// state changes nothing.
    pub fn apply_qrcode_state(&mut self, state: &QRCodeState)
        ensures
            qrcode_applied(*old(self), *state, *final(self)),
    {
        match state {
            QRCodeState::Confirmed { uin, tmp_pwd, tmp_no_pic_sig, tgtgt_key, .. } => {
                self.uin = *uin;
                self.qr_grant = Some(
                    QrGrant {
                        tmp_pwd: copy_bytes(tmp_pwd),
                        tmp_no_pic_sig: copy_bytes(tmp_no_pic_sig),
                        tgtgt_key: copy_bytes(tgtgt_key),
                    },
                );
            },
            _ => {},
        }
    }

    /// Applies the outcome of a login attempt. A success sets the account and
    /// establishes its session; every other outcome changes nothing.
    pub fn apply_login_response(&mut self, resp: &LoginResponse)
        ensures
            login_applied(*old(self), *resp, *final(self)),
    {
        match resp {
            LoginResponse::Success { uin, session, .. } => {
                self.uin = *uin;
                self.session = Some(copy_session(session));
            },
            _ => {},
        }
    }

    /// The key that seals the body of an outbound packet of this encrypt
    /// type, or `None` where it goes in the clear. A packet that asks for the
    /// session key is refused while no login has handed it out.
    pub fn sealing_key(&self, encrypt_type: EncryptType) -> (r: Result<Option<Vec<u8>>, CodecError>)
        ensures
            key_view(r) == self.key_for(encrypt_type),
    {
        match encrypt_type {
            EncryptType::NoEncrypt => Ok(None),
            EncryptType::EmptyKey => {
                let k: Vec<u8> = vec![0u8; 16];
                assert(k@ =~= Seq::new(16, |i: int| 0u8));
                Ok(Some(k))
            },
            EncryptType::D2Key => match &self.session {
                Some(s) => Ok(Some(copy_bytes(&s.d2key))),
                None => Err(CodecError::MissingSessionKey),
            },
        }
    }

    /// The key that opens an inbound packet, as the encrypt-type tag in its
    /// header says, or `None` where it is in the clear. The header starts
    /// with the packet-type tag (four bytes, big-endian) and the encrypt-type
    /// tag (one byte). A packet sealed with the session key is refused while
    /// no login has handed that key out.
    pub fn opening_key(&self, wire: &[u8]) -> (r: Result<Option<Vec<u8>>, CodecError>)
        ensures
            key_view(r) == (if wire@.len() < TAGS_LEN {
                Err(CodecError::Truncated)
            } else if packet_type_of(read_be32(wire@, 0)) is None {
                Err(CodecError::InvalidPacketType(read_be32(wire@, 0)))
            } else {
                match encrypt_type_of(wire@[4] as u32) {
                    None => Err(CodecError::InvalidEncryptType(wire@[4] as u32)),
                    Some(et) => self.key_for(et),
                }
            }),
    {
        if wire.len() < TAGS_LEN {
            return Err(CodecError::Truncated);
        }
        PacketType::from_value(get_be32(wire, 0))?;
        let encrypt_type = EncryptType::from_value(wire[4] as u32)?;
        self.sealing_key(encrypt_type)
    }

    /// Succeeds exactly when the engine is authenticated.
    pub fn check_logged_in(&self) -> (r: Result<(), EngineError>)
        ensures
            r is Ok <==> self.logged_in(),
            r is Err ==> r == Err::<(), EngineError>(EngineError::NotAuthenticated),
    {
        if self.is_logged_in() {
            Ok(())
        } else {
            Err(EngineError::NotAuthenticated)
        }
    }

    /// The keep-alive packet of the session.
    pub fn build_heartbeat_packet(&mut self) -> (r: Result<Packet, EngineError>)
        ensures
            post_login_built(*old(self), heartbeat_view(old(self).spec_uin(), old(self).spec_seq()), r, *final(self)),
    {
        if !self.is_logged_in() {
            return Err(EngineError::NotAuthenticated);
        }
        let seq = self.next_seq();
        Ok(
            Packet {
                packet_type: PacketType::Login,
                encrypt_type: EncryptType::NoEncrypt,
                seq_id: seq as i32,
                body: Vec::new(),
                command_name: "Heartbeat.Alive".to_owned(),
                uin: self.uin,
                message: String::new(),
            },
        )
    }

    /// A request for `command_name` with this body, sealed with the session key.
    pub fn uni_packet(&mut self, command_name: &str, body: &[u8]) -> (r: Result<Packet, EngineError>)
        ensures
            post_login_built(*old(self), uni_view(old(self).spec_uin(), old(self).spec_seq(), command_name@, body@), r, *final(self)),
    {
        if !self.is_logged_in() {
            return Err(EngineError::NotAuthenticated);
        }
        let seq = self.next_seq();
        Ok(
            Packet {
                packet_type: PacketType::Simple,
                encrypt_type: EncryptType::D2Key,
                seq_id: seq as i32,
                body: vstd::slice::slice_to_vec(body),
                command_name: command_name.to_owned(),
                uin: self.uin,
                message: String::new(),
            },
        )
    }
}

pub open spec fn key_view(r: Result<Option<Vec<u8>>, CodecError>) -> Result<
    Option<Seq<u8>>,
    CodecError,
> {
    match r {
        Ok(Some(k)) => Ok(Some(k@)),
        Ok(None) => Ok(None),
        Err(e) => Err(e),
    }
}

/// The sequence number after `s`.
pub open spec fn seq_after(s: u16) -> u16 {
    if s == u16::MAX {
        0
    } else {
        (s + 1) as u16
    }
}

/// `b` has the device, variant, account, counter, QR-code secrets and
/// session of `a`.
pub open spec fn same_state(a: Engine, b: Engine) -> bool {
    &&& b.spec_device() == a.spec_device()
    &&& b.spec_protocol() == a.spec_protocol()
    &&& b.spec_uin() == a.spec_uin()
    &&& b.spec_seq() == a.spec_seq()
    &&& b.spec_qr_grant() == a.spec_qr_grant()
    &&& b.spec_session() == a.spec_session()
}

/// `after` is `before` with the QR-code state `state` applied.
pub open spec fn qrcode_applied(before: Engine, state: QRCodeState, after: Engine) -> bool {
    match state {
        QRCodeState::Confirmed { uin, tmp_pwd, tmp_no_pic_sig, tgtgt_key, .. } => {
            &&& after.spec_uin() == uin
            &&& after.spec_qr_grant() == Some((tmp_pwd@, tmp_no_pic_sig@, tgtgt_key@))
            &&& after.logged_in()
            &&& after.spec_device() == before.spec_device()
            &&& after.spec_protocol() == before.spec_protocol()
            &&& after.spec_seq() == before.spec_seq()
            &&& after.spec_session() == before.spec_session()
        },
        _ => same_state(before, after),
    }
}

/// `after` is `before` with the login outcome `resp` applied.
pub open spec fn login_applied(before: Engine, resp: LoginResponse, after: Engine) -> bool {
    match resp {
        LoginResponse::Success { uin, session, .. } => {
            &&& after.spec_session() == Some((session.d2@, session.d2key@, session.tgt@, session.tgt_key@))
            &&& after.spec_uin() == uin
            &&& after.spec_device() == before.spec_device()
            &&& after.spec_protocol() == before.spec_protocol()
            &&& after.spec_seq() == before.spec_seq()
            &&& after.spec_qr_grant() == before.spec_qr_grant()
        },
        _ => same_state(before, after),
    }
}

/// A post-login builder that would give `p` gave `r` and left `after`:
/// the packet, with the sequence number taken, once logged in; before that,
/// `NotAuthenticated` and nothing changed.
pub open spec fn post_login_built(
    before: Engine,
    p: PacketView,
    r: Result<Packet, EngineError>,
    after: Engine,
) -> bool {
    if before.logged_in() {
        &&& r matches Ok(q) && q@ == p
        &&& after.spec_seq() == seq_after(before.spec_seq())
        &&& after.spec_device() == before.spec_device()
        &&& after.spec_protocol() == before.spec_protocol()
        &&& after.spec_uin() == before.spec_uin()
        &&& after.spec_qr_grant() == before.spec_qr_grant()
        &&& after.spec_session() == before.spec_session()
    } else {
        &&& r == Err::<Packet, EngineError>(EngineError::NotAuthenticated)
        &&& same_state(before, after)
    }
}

pub open spec fn heartbeat_view(uin: i64, seq: u16) -> PacketView {
    PacketView {
        packet_type: PacketType::Login,
        encrypt_type: EncryptType::NoEncrypt,
        seq_id: seq as i32,
        body: Seq::empty(),
        command_name: "Heartbeat.Alive"@,
        uin,
        message: Seq::empty(),
    }
}

pub open spec fn uni_view(uin: i64, seq: u16, command_name: Seq<char>, body: Seq<u8>) -> PacketView {
    PacketView {
        packet_type: PacketType::Simple,
        encrypt_type: EncryptType::D2Key,
        seq_id: seq as i32,
        body,
        command_name,
        uin,
        message: Seq::empty(),
    }
}

/// A confirmed QR-code login leaves the engine authenticated on the
/// confirmed account; waiting for a scan changes nothing.
pub proof fn lemma_qrcode_confirmation(before: Engine, state: QRCodeState, after: Engine)
    requires
        qrcode_applied(before, state, after),
    ensures
        state matches QRCodeState::Confirmed { uin, .. } ==> after.spec_uin() == uin
            && after.logged_in(),
        state is WaitingForScan ==> same_state(before, after),
{
}

/// A frozen account leaves the session as it was: an engine with no session
/// still has none.
pub proof fn lemma_frozen_keeps_session(before: Engine, after: Engine)
    requires
        login_applied(before, LoginResponse::AccountFrozen, after),
    ensures
        after.spec_session() == before.spec_session(),
        !before.logged_in() ==> !after.logged_in(),
{
}

/// After a successful login the engine is on the account logged in to, and
/// the heartbeat is built.
pub proof fn lemma_success_enables_heartbeat(
    before: Engine,
    resp: LoginResponse,
    mid: Engine,
    r: Result<Packet, EngineError>,
    after: Engine,
)
    requires
        resp is Success,
        login_applied(before, resp, mid),
        post_login_built(mid, heartbeat_view(mid.spec_uin(), mid.spec_seq()), r, after),
    ensures
        resp matches LoginResponse::Success { uin, .. } ==> mid.spec_uin() == uin,
        mid.has_session_key(),
        r is Ok,
{
}

/// After a confirmed QR-code login every post-login builder succeeds.
pub proof fn lemma_confirmation_enables_post_login(
    before: Engine,
    state: QRCodeState,
    mid: Engine,
    p: PacketView,
    r: Result<Packet, EngineError>,
    after: Engine,
)
    requires
        state is Confirmed,
        qrcode_applied(before, state, mid),
        post_login_built(mid, p, r, after),
    ensures
        r matches Ok(q) && q@ == p,
{
}

/// Before the engine is authenticated, every post-login builder fails with
/// `NotAuthenticated` and changes nothing.
pub proof fn lemma_refused_before_login(
    before: Engine,
    p: PacketView,
    r: Result<Packet, EngineError>,
    after: Engine,
)
    requires
        !before.logged_in(),
        post_login_built(before, p, r, after),
    ensures
        r == Err::<Packet, EngineError>(EngineError::NotAuthenticated),
        same_state(before, after),
{
}

} // verus!
