//! The logical packet and its type tags.
use vstd::prelude::*;

verus! {

/// The header shape of a packet.
#[derive(Clone, Copy, Debug, PartialEq, Eq, Structural)]
pub enum PacketType {
    Simple,
    Login,
}

/// How the body of a packet is sealed on the wire.
#[derive(Clone, Copy, Debug, PartialEq, Eq, Structural)]
pub enum EncryptType {
    /// Sent in the clear.
    NoEncrypt,
    /// Sealed with the session key established at login.
    D2Key,
    /// Sealed with the fixed all-zero key.
    EmptyKey,
}

/// Why a packet could not be encoded or decoded.
#[derive(Clone, Copy, Debug, PartialEq, Eq, Structural)]
pub enum CodecError {
    /// The buffer ends before the header does.
    Truncated,
    /// The packet-type tag is not a known one.
    InvalidPacketType(u32),
    /// The encrypt-type tag is not a known one.
    InvalidEncryptType(u32),
    /// The packet asks for the session key, and no session is established.
    MissingSessionKey,
}

pub open spec fn packet_type_value(t: PacketType) -> u32 {
    match t {
        PacketType::Login => 0x0A,
        PacketType::Simple => 0x0B,
    }
}

pub open spec fn packet_type_of(v: u32) -> Option<PacketType> {
    if v == 0x0A {
        Some(PacketType::Login)
    } else if v == 0x0B {
        Some(PacketType::Simple)
    } else {
        None
    }
}

pub open spec fn encrypt_type_value(t: EncryptType) -> u32 {
    match t {
        EncryptType::NoEncrypt => 0x00,
        EncryptType::D2Key => 0x01,
        EncryptType::EmptyKey => 0x02,
    }
}

pub open spec fn encrypt_type_of(v: u32) -> Option<EncryptType> {
    if v == 0x00 {
        Some(EncryptType::NoEncrypt)
    } else if v == 0x01 {
        Some(EncryptType::D2Key)
    } else if v == 0x02 {
        Some(EncryptType::EmptyKey)
    } else {
        None
    }
}

impl PacketType {
    /// The tag written on the wire.
    pub fn value(&self) -> (r: u32)
        ensures
            r == packet_type_value(*self),
    {
        match self {
            PacketType::Login => 0x0A,
            PacketType::Simple => 0x0B,
        }
    }

    /// The packet type with tag `v`.
    pub fn from_value(v: u32) -> (r: Result<PacketType, CodecError>)
        ensures
            match packet_type_of(v) {
                Some(t) => r == Ok::<PacketType, CodecError>(t),
                None => r == Err::<PacketType, CodecError>(CodecError::InvalidPacketType(v)),
            },
    {
        if v == 0x0A {
            Ok(PacketType::Login)
        } else if v == 0x0B {
            Ok(PacketType::Simple)
        } else {
            Err(CodecError::InvalidPacketType(v))
        }
    }
}

impl EncryptType {
    /// The tag written on the wire.
    pub fn value(&self) -> (r: u32)
        ensures
            r == encrypt_type_value(*self),
    {
        match self {
            EncryptType::NoEncrypt => 0x00,
            EncryptType::D2Key => 0x01,
            EncryptType::EmptyKey => 0x02,
        }
    }

    /// The encrypt type with tag `v`.
    pub fn from_value(v: u32) -> (r: Result<EncryptType, CodecError>)
        ensures
            match encrypt_type_of(v) {
                Some(t) => r == Ok::<EncryptType, CodecError>(t),
                None => r == Err::<EncryptType, CodecError>(CodecError::InvalidEncryptType(v)),
            },
    {
        if v == 0x00 {
            Ok(EncryptType::NoEncrypt)
        } else if v == 0x01 {
            Ok(EncryptType::D2Key)
        } else if v == 0x02 {
            Ok(EncryptType::EmptyKey)
        } else {
            Err(CodecError::InvalidEncryptType(v))
        }
    }
}

pub proof fn lemma_packet_type_tags(t: PacketType)
    ensures
        packet_type_of(packet_type_value(t)) == Some(t),
{
}

pub proof fn lemma_encrypt_type_tags(t: EncryptType)
    ensures
        encrypt_type_of(encrypt_type_value(t)) == Some(t),
{
}

/// One logical protocol message.
#[derive(Clone, Debug, PartialEq, Eq)]
pub struct Packet {
    pub packet_type: PacketType,
    pub encrypt_type: EncryptType,
    pub seq_id: i32,
    pub body: Vec<u8>,
    pub command_name: String,
    pub uin: i64,
    /// Diagnostic text; empty on success.
    pub message: String,
}

/// A packet as values.
pub struct PacketView {
    pub packet_type: PacketType,
    pub encrypt_type: EncryptType,
    pub seq_id: i32,
    pub body: Seq<u8>,
    pub command_name: Seq<char>,
    pub uin: i64,
    pub message: Seq<char>,
}

impl View for Packet {
    type V = PacketView;

    open spec fn view(&self) -> PacketView {
        PacketView {
            packet_type: self.packet_type,
            encrypt_type: self.encrypt_type,
            seq_id: self.seq_id,
            body: self.body@,
            command_name: self.command_name@,
            uin: self.uin,
            message: self.message@,
        }
    }
}

} // verus!
