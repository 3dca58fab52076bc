//! IKEv2 probe packets (RFC 7296 layouts): records, code tables, transform
//! generation and normalization, key material, length resolution and
//! serialization.
use vstd::prelude::*;

use openssl::bn::BigNumRef;
use openssl::dh::Dh;
use openssl::error::ErrorStack;
use openssl::pkey::{Params, Private};

use crate::wire::{be16, be32, be64, put_u16, put_u32, put_u64, put_u8};
use crate::BuildError;

verus! {

/// Size in bytes of the fixed IKE header.
pub const HEADER_LEN: u16 = 28;

/// Size in bytes of the IKEv2 Security Association payload header.
pub const SA_HEADER_LEN: u16 = 4;

/// Size in bytes of a proposal header.
pub const PROPOSAL_HEADER_LEN: u16 = 8;

/// Size in bytes of a transform without attributes.
pub const TRANSFORM_LEN: u16 = 8;

/// Size in bytes of a transform with its key-length attribute.
pub const ATTRIBUTE_TRANSFORM_LEN: u16 = 12;

/// Size in bytes of the key-exchange payload header.
pub const KEY_EXCHANGE_HEADER_LEN: u16 = 8;

/// Size in bytes of the nonce payload header.
pub const NONCE_HEADER_LEN: u16 = 4;

/// Most transforms that the one-byte count of a proposal can announce.
pub const MAX_TRANSFORMS: usize = 255;

/// Code of a transform that another transform follows.
pub const MORE_TRANSFORMS: u8 = 3;

/// Size of the Diffie-Hellman prime, in bits.
pub const DH_PRIME_BITS: u32 = 1024;

/// Size of the Diffie-Hellman prime, in bytes.
pub const DH_PRIME_BYTES: i32 = 128;

/// Generator of the Diffie-Hellman group.
pub const DH_GENERATOR: u32 = 2;

/// Number of random bytes in the nonce.
pub const NONCE_LEN: usize = 174;

// ---------------------------------------------------------------- records

/// The fixed IKE header (RFC 7296, 3.1).
#[derive(Debug, Clone, Copy, PartialEq, Eq, Structural)]
pub struct IkeV2Header {
    /// Initiator's security parameter index.
    pub initiator_spi: u64,
    /// Responder's security parameter index; zero in a first message.
    pub responder_spi: u64,
    /// Type of the first payload.
    pub next_payload: u8,
    /// Major and minor version, one nibble each.
    pub version: u8,
    /// Exchange type code.
    pub exchange_type: u8,
    /// Flags.
    pub flag: u8,
    /// Message id; zero in a first message.
    pub message_id: u32,
    /// Length of the whole packet, header included.
    pub length: u32,
}

impl IkeV2Header {
    pub open spec fn wire_bytes(&self) -> Seq<u8> {
        be64(self.initiator_spi) + be64(self.responder_spi) + seq![
            self.next_payload,
            self.version,
            self.exchange_type,
            self.flag,
        ] + be32(self.message_id) + be32(self.length)
    }

    /// Appends the 28 bytes of the header.
    pub fn append_bytes(&self, out: &mut Vec<u8>)
        ensures
            final(out)@ == old(out)@ + self.wire_bytes(),
    {
        let ghost start = out@;
        put_u64(out, self.initiator_spi);
        put_u64(out, self.responder_spi);
        put_u8(out, self.next_payload);
        put_u8(out, self.version);
        put_u8(out, self.exchange_type);
        put_u8(out, self.flag);
        put_u32(out, self.message_id);
        put_u32(out, self.length);
        assert(out@ =~= start + self.wire_bytes());
    }
}

/// The Security Association payload header (RFC 7296, 3.3).
#[derive(Debug, Clone, Copy, PartialEq, Eq, Structural)]
pub struct SecurityAssociationV2 {
    /// Type of the payload after this one.
    pub sa2_next_payload: u8,
    /// Critical bit and reserved bits; zero.
    pub critical_bit: u8,
    /// Length of the payload, proposal and transforms included.
    pub sa2_length: u16,
}

impl SecurityAssociationV2 {
    pub open spec fn wire_bytes(&self) -> Seq<u8> {
        seq![self.sa2_next_payload, self.critical_bit] + be16(self.sa2_length)
    }

    /// Appends the 4 bytes of the payload header.
    pub fn append_bytes(&self, out: &mut Vec<u8>)
        ensures
            final(out)@ == old(out)@ + self.wire_bytes(),
    {
        let ghost start = out@;
        put_u8(out, self.sa2_next_payload);
        put_u8(out, self.critical_bit);
        put_u16(out, self.sa2_length);
        assert(out@ =~= start + self.wire_bytes());
    }
}

/// The proposal header (RFC 7296, 3.3.1).
#[derive(Debug, Clone, Copy, PartialEq, Eq, Structural)]
pub struct Proposal {
    /// 0 for the last proposal, 2 when another follows.
    pub next_proposal: u8,
    /// Reserved; always zero.
    pub reserved: u8,
    /// Length of the proposal, its transforms included.
    pub length: u16,
    /// Number of this proposal, starting at one.
    pub proposal_number: u8,
    /// Protocol the proposal is for.
    pub protocol_id: ProtocolId,
    /// Size of the SPI; zero, no SPI is carried.
    pub spi_size: u8,
    /// Number of transforms that follow.
    pub number_of_transforms: u8,
}

impl Proposal {
    pub open spec fn wire_bytes(&self) -> Seq<u8> {
        seq![self.next_proposal, self.reserved] + be16(self.length) + seq![
            self.proposal_number,
            self.protocol_id.code(),
            self.spi_size,
            self.number_of_transforms,
        ]
    }

    /// Appends the 8 bytes of the proposal header.
    pub fn append_bytes(&self, out: &mut Vec<u8>)
        ensures
            final(out)@ == old(out)@ + self.wire_bytes(),
    {
        let ghost start = out@;
        put_u8(out, self.next_proposal);
        put_u8(out, self.reserved);
        put_u16(out, self.length);
        put_u8(out, self.proposal_number);
        put_u8(out, u8::from(self.protocol_id));
        put_u8(out, self.spi_size);
        put_u8(out, self.number_of_transforms);
        assert(out@ =~= start + self.wire_bytes());
    }
}

/// A transform without attributes (RFC 7296, 3.3.2).
#[derive(Debug, Clone, Copy, PartialEq, Eq, Structural)]
pub struct TransformV2 {
    /// 3 when another transform follows, 0 after the last one.
    pub next_transform: u8,
    /// Reserved; always zero.
    pub reserved: u8,
    /// Length of the transform.
    pub length: u16,
    /// Transform type (encryption, PRF, integrity, Diffie-Hellman group).
    pub transform_type: u8,
    /// Second reserved field; always zero.
    pub reserved2: u8,
    /// Transform id within its type.
    pub transform_id: u16,
}

impl TransformV2 {
    pub open spec fn wire_bytes(&self) -> Seq<u8> {
        seq![self.next_transform, self.reserved] + be16(self.length) + seq![
            self.transform_type,
            self.reserved2,
        ] + be16(self.transform_id)
    }

    /// Appends the 8 bytes of the transform.
    pub fn append_bytes(&self, out: &mut Vec<u8>)
        ensures
            final(out)@ == old(out)@ + self.wire_bytes(),
    {
        let ghost start = out@;
        put_u8(out, self.next_transform);
        put_u8(out, self.reserved);
        put_u16(out, self.length);
        put_u8(out, self.transform_type);
        put_u8(out, self.reserved2);
        put_u16(out, self.transform_id);
        assert(out@ =~= start + self.wire_bytes());
    }

    /// Sets the length of a transform without attributes.
    pub fn calculate_length(&mut self)
        ensures
            *final(self) == (TransformV2 { length: TRANSFORM_LEN, ..*old(self) }),
    {
        self.length = TRANSFORM_LEN;
    }
}

/// An encryption transform with its key-length attribute.
#[derive(Debug, Clone, Copy, PartialEq, Eq, Structural)]
pub struct TransformAttributeV2 {
    /// 3 when another transform follows, 0 after the last one.
    pub next_transform: u8,
    /// Reserved; always zero.
    pub reserved: u8,
    /// Length of the transform, its attribute included.
    pub length: u16,
    /// Transform type (encryption).
    pub transform_type: u8,
    /// Second reserved field; always zero.
    pub reserved2: u8,
    /// Cipher id.
    pub transform_id: u16,
    /// Key length attribute.
    pub attribute: AttributeV2,
}

impl TransformAttributeV2 {
    pub open spec fn wire_bytes(&self) -> Seq<u8> {
        seq![self.next_transform, self.reserved] + be16(self.length) + seq![
            self.transform_type,
            self.reserved2,
        ] + be16(self.transform_id) + self.attribute.wire_bytes()
    }

    /// Appends the 12 bytes of the transform.
    pub fn append_bytes(&self, out: &mut Vec<u8>)
        ensures
            final(out)@ == old(out)@ + self.wire_bytes(),
    {
        let ghost start = out@;
        put_u8(out, self.next_transform);
        put_u8(out, self.reserved);
        put_u16(out, self.length);
        put_u8(out, self.transform_type);
        put_u8(out, self.reserved2);
        put_u16(out, self.transform_id);
        self.attribute.append_bytes(out);
        assert(out@ =~= start + self.wire_bytes());
    }

    /// Sets the length of a transform with its attribute.
    pub fn calculate_length(&mut self)
        ensures
            *final(self) == (TransformAttributeV2 { length: ATTRIBUTE_TRANSFORM_LEN, ..*old(self) }),
    {
        self.length = ATTRIBUTE_TRANSFORM_LEN;
    }
}

/// The key-length attribute, always in its inline-value form.
#[derive(Debug, Clone, Copy, PartialEq, Eq, Structural)]
pub struct AttributeV2 {
    /// Attribute type, with the top bit set.
    pub attribute_type: u16,
    /// Key length in bits; zero where the cipher takes none.
    pub attribute_value: u16,
}

impl AttributeV2 {
    pub open spec fn wire_bytes(&self) -> Seq<u8> {
        be16(self.attribute_type) + be16(self.attribute_value)
    }

    /// Appends the 4 bytes of the attribute.
    pub fn append_bytes(&self, out: &mut Vec<u8>)
        ensures
            final(out)@ == old(out)@ + self.wire_bytes(),
    {
        let ghost start = out@;
        put_u16(out, self.attribute_type);
        put_u16(out, self.attribute_value);
        assert(out@ =~= start + self.wire_bytes());
    }
}

/// The key-exchange payload header (RFC 7296, 3.4); the public value follows.
#[derive(Debug, Clone, Copy, PartialEq, Eq, Structural)]
pub struct KeyExchangePayloadV2 {
    /// Type of the payload after this one.
    pub next_payload: u8,
    /// Reserved; always zero.
    pub reserved: u8,
    /// Length of the payload, the public value included.
    pub length: u16,
    /// Diffie-Hellman group of the public value.
    pub diffie_hellman_group: u16,
    /// Second reserved field; always zero.
    pub reserved2: u16,
}

impl KeyExchangePayloadV2 {
    pub open spec fn wire_bytes(&self) -> Seq<u8> {
        seq![self.next_payload, self.reserved] + be16(self.length) + be16(
            self.diffie_hellman_group,
        ) + be16(self.reserved2)
    }

    /// Appends the 8 bytes of the payload header.
    pub fn append_bytes(&self, out: &mut Vec<u8>)
        ensures
            final(out)@ == old(out)@ + self.wire_bytes(),
    {
        let ghost start = out@;
        put_u8(out, self.next_payload);
        put_u8(out, self.reserved);
        put_u16(out, self.length);
        put_u16(out, self.diffie_hellman_group);
        put_u16(out, self.reserved2);
        assert(out@ =~= start + self.wire_bytes());
    }
}

/// The nonce payload header (RFC 7296, 3.9); the nonce follows.
#[derive(Debug, Clone, Copy, PartialEq, Eq, Structural)]
pub struct NoncePayloadV2 {
    /// Type of the payload after this one.
    pub next_payload_: u8,
    /// Reserved; always zero.
    pub reserved: u8,
    /// Length of the payload, the nonce included.
    pub length: u16,
}

impl NoncePayloadV2 {
    pub open spec fn wire_bytes(&self) -> Seq<u8> {
        seq![self.next_payload_, self.reserved] + be16(self.length)
    }

    /// Appends the 4 bytes of the payload header.
    pub fn append_bytes(&self, out: &mut Vec<u8>)
        ensures
            final(out)@ == old(out)@ + self.wire_bytes(),
    {
        let ghost start = out@;
        put_u8(out, self.next_payload_);
        put_u8(out, self.reserved);
        put_u16(out, self.length);
        assert(out@ =~= start + self.wire_bytes());
    }
}

// ---------------------------------------------------------------- code tables

/// Payload type codes of IKEv2.
#[derive(Debug, Clone, Copy, PartialEq, Eq, Structural)]
pub enum PayloadTypeV2 {
    /// No payload follows.
    NoNextPayload,
    SecurityAssociation,
    KeyExchange,
    IdentificationInitiator,
    IdentificationResponder,
    Certificate,
    CertificateRequest,
    Authentication,
    Nonce,
    Notify,
    VendorID,
}

impl PayloadTypeV2 {
    /// Wire code of each entry.
    pub open spec fn code(self) -> u8 {
        match self {
            PayloadTypeV2::NoNextPayload => 0,
            PayloadTypeV2::SecurityAssociation => 33,
            PayloadTypeV2::KeyExchange => 34,
            PayloadTypeV2::IdentificationInitiator => 35,
            PayloadTypeV2::IdentificationResponder => 36,
            PayloadTypeV2::Certificate => 37,
            PayloadTypeV2::CertificateRequest => 38,
            PayloadTypeV2::Authentication => 39,
            PayloadTypeV2::Nonce => 40,
            PayloadTypeV2::Notify => 41,
            PayloadTypeV2::VendorID => 43,
        }
    }

    /// Entry of a wire code; `None` for a code that has no entry.
    pub open spec fn decode(value: u8) -> Option<Self> {
        match value {
            0 => Some(PayloadTypeV2::NoNextPayload),
            33 => Some(PayloadTypeV2::SecurityAssociation),
            34 => Some(PayloadTypeV2::KeyExchange),
            35 => Some(PayloadTypeV2::IdentificationInitiator),
            36 => Some(PayloadTypeV2::IdentificationResponder),
            37 => Some(PayloadTypeV2::Certificate),
            38 => Some(PayloadTypeV2::CertificateRequest),
            39 => Some(PayloadTypeV2::Authentication),
            40 => Some(PayloadTypeV2::Nonce),
            41 => Some(PayloadTypeV2::Notify),
            43 => Some(PayloadTypeV2::VendorID),
            _ => None,
        }
    }

    pub fn try_from_u8(value: u8) -> (r: Option<Self>)
        ensures
            r == Self::decode(value),
    {
        match value {
            0 => Some(PayloadTypeV2::NoNextPayload),
            33 => Some(PayloadTypeV2::SecurityAssociation),
            34 => Some(PayloadTypeV2::KeyExchange),
            35 => Some(PayloadTypeV2::IdentificationInitiator),
            36 => Some(PayloadTypeV2::IdentificationResponder),
            37 => Some(PayloadTypeV2::Certificate),
            38 => Some(PayloadTypeV2::CertificateRequest),
            39 => Some(PayloadTypeV2::Authentication),
            40 => Some(PayloadTypeV2::Nonce),
            41 => Some(PayloadTypeV2::Notify),
            43 => Some(PayloadTypeV2::VendorID),
            _ => None,
        }
    }

    /// Decoding the code of an entry gives the entry back, and a code
    /// decodes only to the entry that has it.
    pub proof fn lemma_round_trip(self, value: u8)
        ensures
            Self::decode(self.code()) == Some(self),
            Self::decode(value) matches Some(t) ==> t.code() == value,
    {
    }
}

impl From<PayloadTypeV2> for u8 {
    fn from(value: PayloadTypeV2) -> u8 {
        match value {
            PayloadTypeV2::NoNextPayload => 0,
            PayloadTypeV2::SecurityAssociation => 33,
            PayloadTypeV2::KeyExchange => 34,
            PayloadTypeV2::IdentificationInitiator => 35,
            PayloadTypeV2::IdentificationResponder => 36,
            PayloadTypeV2::Certificate => 37,
            PayloadTypeV2::CertificateRequest => 38,
            PayloadTypeV2::Authentication => 39,
            PayloadTypeV2::Nonce => 40,
            PayloadTypeV2::Notify => 41,
            PayloadTypeV2::VendorID => 43,
        }
    }
}

impl vstd::std_specs::convert::FromSpecImpl<PayloadTypeV2> for u8 {
    open spec fn obeys_from_spec() -> bool {
        true
    }

    open spec fn from_spec(v: PayloadTypeV2) -> u8 {
        v.code()
    }
}

/// Exchange types of IKEv2.
#[derive(Debug, Clone, Copy, PartialEq, Eq, Structural)]
pub enum ExchangeTypeV2 {
    /// The initial exchange.
    IkeSaInit,
    IkeAuth,
    CreateChildSa,
    Informational,
}

impl ExchangeTypeV2 {
    /// Wire code of each entry.
    pub open spec fn code(self) -> u8 {
        match self {
            ExchangeTypeV2::IkeSaInit => 34,
            ExchangeTypeV2::IkeAuth => 35,
            ExchangeTypeV2::CreateChildSa => 36,
            ExchangeTypeV2::Informational => 37,
        }
    }

    /// Entry of a wire code; `None` for a code that has no entry.
    pub open spec fn decode(value: u8) -> Option<Self> {
        match value {
            34 => Some(ExchangeTypeV2::IkeSaInit),
            35 => Some(ExchangeTypeV2::IkeAuth),
            36 => Some(ExchangeTypeV2::CreateChildSa),
            37 => Some(ExchangeTypeV2::Informational),
            _ => None,
        }
    }

    pub fn try_from_u8(value: u8) -> (r: Option<Self>)
        ensures
            r == Self::decode(value),
    {
        match value {
            34 => Some(ExchangeTypeV2::IkeSaInit),
            35 => Some(ExchangeTypeV2::IkeAuth),
            36 => Some(ExchangeTypeV2::CreateChildSa),
            37 => Some(ExchangeTypeV2::Informational),
            _ => None,
        }
    }

    /// Decoding the code of an entry gives the entry back, and a code
    /// decodes only to the entry that has it.
    pub proof fn lemma_round_trip(self, value: u8)
        ensures
            Self::decode(self.code()) == Some(self),
            Self::decode(value) matches Some(t) ==> t.code() == value,
    {
    }
}

impl From<ExchangeTypeV2> for u8 {
    fn from(value: ExchangeTypeV2) -> u8 {
        match value {
            ExchangeTypeV2::IkeSaInit => 34,
            ExchangeTypeV2::IkeAuth => 35,
            ExchangeTypeV2::CreateChildSa => 36,
            ExchangeTypeV2::Informational => 37,
        }
    }
}

impl vstd::std_specs::convert::FromSpecImpl<ExchangeTypeV2> for u8 {
    open spec fn obeys_from_spec() -> bool {
        true
    }

    open spec fn from_spec(v: ExchangeTypeV2) -> u8 {
        v.code()
    }
}

/// Protocol ids of a proposal.
#[derive(Debug, Clone, Copy, PartialEq, Eq, Structural)]
pub enum ProtocolId {
    Reserved,
    IKE,
    AuthenticationHeader,
    EncapsulationSecurityPayload,
    FcEspHeader,
    FcCtAuthentication,
}

impl ProtocolId {
    /// Wire code of each entry.
    pub open spec fn code(self) -> u8 {
        match self {
            ProtocolId::Reserved => 0,
            ProtocolId::IKE => 1,
            ProtocolId::AuthenticationHeader => 2,
            ProtocolId::EncapsulationSecurityPayload => 3,
            ProtocolId::FcEspHeader => 4,
            ProtocolId::FcCtAuthentication => 5,
        }
    }

    /// Entry of a wire code; `None` for a code that has no entry.
    pub open spec fn decode(value: u8) -> Option<Self> {
        match value {
            0 => Some(ProtocolId::Reserved),
            1 => Some(ProtocolId::IKE),
            2 => Some(ProtocolId::AuthenticationHeader),
            3 => Some(ProtocolId::EncapsulationSecurityPayload),
            4 => Some(ProtocolId::FcEspHeader),
            5 => Some(ProtocolId::FcCtAuthentication),
            _ => None,
        }
    }

    pub fn try_from_u8(value: u8) -> (r: Option<Self>)
        ensures
            r == Self::decode(value),
    {
        match value {
            0 => Some(ProtocolId::Reserved),
            1 => Some(ProtocolId::IKE),
            2 => Some(ProtocolId::AuthenticationHeader),
            3 => Some(ProtocolId::EncapsulationSecurityPayload),
            4 => Some(ProtocolId::FcEspHeader),
            5 => Some(ProtocolId::FcCtAuthentication),
            _ => None,
        }
    }

    /// Decoding the code of an entry gives the entry back, and a code
    /// decodes only to the entry that has it.
    pub proof fn lemma_round_trip(self, value: u8)
        ensures
            Self::decode(self.code()) == Some(self),
            Self::decode(value) matches Some(t) ==> t.code() == value,
    {
    }
}

impl From<ProtocolId> for u8 {
    fn from(value: ProtocolId) -> u8 {
        match value {
            ProtocolId::Reserved => 0,
            ProtocolId::IKE => 1,
            ProtocolId::AuthenticationHeader => 2,
            ProtocolId::EncapsulationSecurityPayload => 3,
            ProtocolId::FcEspHeader => 4,
            ProtocolId::FcCtAuthentication => 5,
        }
    }
}

impl vstd::std_specs::convert::FromSpecImpl<ProtocolId> for u8 {
    open spec fn obeys_from_spec() -> bool {
        true
    }

    open spec fn from_spec(v: ProtocolId) -> u8 {
        v.code()
    }
}

/// Attribute types of IKEv2 transforms; the top bit of the code marks
/// the inline-value form.
#[derive(Debug, Clone, Copy, PartialEq, Eq, Structural)]
pub enum AttributeType {
    /// Key length of a cipher.
    KeyLength,
}

impl AttributeType {
    /// Wire code of each entry.
    pub open spec fn code(self) -> u16 {
        match self {
            AttributeType::KeyLength => 0x800e,
        }
    }

}

impl From<AttributeType> for u16 {
    fn from(value: AttributeType) -> u16 {
        match value {
            AttributeType::KeyLength => 0x800e,
        }
    }
}

impl vstd::std_specs::convert::FromSpecImpl<AttributeType> for u16 {
    open spec fn obeys_from_spec() -> bool {
        true
    }

    open spec fn from_spec(v: AttributeType) -> u16 {
        v.code()
    }
}

/// Key lengths of AES-CBC and AES-CTR.
#[derive(Debug, Clone, Copy, PartialEq, Eq, Structural)]
pub enum AttributeValue {
    Bit128,
    Bit192,
    Bit256,
}

impl AttributeValue {
    /// Wire code of each entry.
    pub open spec fn code(self) -> u16 {
        match self {
            AttributeValue::Bit128 => 10,
            AttributeValue::Bit192 => 12,
            AttributeValue::Bit256 => 14,
        }
    }

}

impl From<AttributeValue> for u16 {
    fn from(value: AttributeValue) -> u16 {
        match value {
            AttributeValue::Bit128 => 10,
            AttributeValue::Bit192 => 12,
            AttributeValue::Bit256 => 14,
        }
    }
}

impl vstd::std_specs::convert::FromSpecImpl<AttributeValue> for u16 {
    open spec fn obeys_from_spec() -> bool {
        true
    }

    open spec fn from_spec(v: AttributeValue) -> u16 {
        v.code()
    }
}

/// Transform types (RFC 7296, 3.3.2).
#[derive(Debug, Clone, Copy, PartialEq, Eq, Structural)]
pub enum TransformTypeValues {
    EncryptionAlgorithm,
    PseudoRandomFunction,
    IntegrityAlgorithm,
    DiffieHellmanGroup,
    ExtendedSequenceNumbers,
}

impl TransformTypeValues {
    /// Wire code of each entry.
    pub open spec fn code(self) -> u8 {
        match self {
            TransformTypeValues::EncryptionAlgorithm => 1,
            TransformTypeValues::PseudoRandomFunction => 2,
            TransformTypeValues::IntegrityAlgorithm => 3,
            TransformTypeValues::DiffieHellmanGroup => 4,
            TransformTypeValues::ExtendedSequenceNumbers => 5,
        }
    }

}

impl From<TransformTypeValues> for u8 {
    fn from(value: TransformTypeValues) -> u8 {
        match value {
            TransformTypeValues::EncryptionAlgorithm => 1,
            TransformTypeValues::PseudoRandomFunction => 2,
            TransformTypeValues::IntegrityAlgorithm => 3,
            TransformTypeValues::DiffieHellmanGroup => 4,
            TransformTypeValues::ExtendedSequenceNumbers => 5,
        }
    }
}

impl vstd::std_specs::convert::FromSpecImpl<TransformTypeValues> for u8 {
    open spec fn obeys_from_spec() -> bool {
        true
    }

    open spec fn from_spec(v: TransformTypeValues) -> u8 {
        v.code()
    }
}

impl AttributeType {
    /// The one attribute type of IKEv2 carries its value inline: the top bit
    /// of its code is set.
    pub proof fn lemma_significant_bit(self)
        ensures
            self.code() >= 0x8000,
    {
    }
}

// ---------------------------------------------------------------- generation

/// Number of cipher ids probed: 1 to 9, 11 to 16 and 18 to 35.
pub const ENCRYPTION_ID_COUNT: usize = 33;

/// Number of pseudo-random functions probed: 1 to 9.
pub const PRF_COUNT: usize = 9;

/// Number of integrity algorithms probed: 1 to 14.
pub const INTEGRITY_COUNT: usize = 14;

/// Number of Diffie-Hellman groups probed: 1, 2, 5 and 14 to 34.
pub const DH_GROUP_COUNT: usize = 24;

/// The cipher id at position `k` of the probed ranges.
pub open spec fn encryption_id_at(k: int) -> u16 {
    if k < 9 {
        (k + 1) as u16
    } else if k < 15 {
        (k + 2) as u16
    } else {
        (k + 3) as u16
    }
}

/// The Diffie-Hellman group at position `k` of the probed ranges.
pub open spec fn dh_group_at(k: int) -> u16 {
    if k < 2 {
        (k + 1) as u16
    } else if k == 2 {
        5
    } else {
        (k + 11) as u16
    }
}

/// The ciphers that need an explicit key length: AES-CBC and AES-CTR.
pub open spec fn needs_key_length(id: u16) -> bool {
    id == 12 || id == 13
}

/// An encryption transform before normalization and length resolution.
pub open spec fn encryption_transform(id: u16, key_length: u16) -> TransformAttributeV2 {
    TransformAttributeV2 {
        next_transform: MORE_TRANSFORMS,
        reserved: 0,
        length: 0,
        transform_type: TransformTypeValues::EncryptionAlgorithm.code(),
        reserved2: 0,
        transform_id: id,
        attribute: AttributeV2 {
            attribute_type: AttributeType::KeyLength.code(),
            attribute_value: key_length,
        },
    }
}

/// The entries of one cipher: one per key length of 128, 192 and 256 bits
/// where the cipher needs one, else a single entry with a zero key length.
pub open spec fn encryption_entries(id: u16) -> Seq<TransformAttributeV2> {
    if needs_key_length(id) {
        seq![
            encryption_transform(id, 128),
            encryption_transform(id, 192),
            encryption_transform(id, 256),
        ]
    } else {
        seq![encryption_transform(id, 0)]
    }
}

/// The entries of the first `k` probed ciphers, in order.
pub open spec fn encryption_list(k: int) -> Seq<TransformAttributeV2>
    decreases k,
{
    if k <= 0 {
        seq![]
    } else {
        encryption_list(k - 1) + encryption_entries(encryption_id_at(k - 1))
    }
}

/// A transform of a category without attributes, before normalization and
/// length resolution.
pub open spec fn plain_transform(category: TransformTypeValues, id: u16) -> TransformV2 {
    TransformV2 {
        next_transform: MORE_TRANSFORMS,
        reserved: 0,
        length: 0,
        transform_type: category.code(),
        reserved2: 0,
        transform_id: id,
    }
}

fn encryption_id_code(k: usize) -> (r: u16)
    requires
        k < ENCRYPTION_ID_COUNT,
    ensures
        r == encryption_id_at(k as int),
{
    if k < 9 {
        k as u16 + 1
    } else if k < 15 {
        k as u16 + 2
    } else {
        k as u16 + 3
    }
}

fn dh_group_code(k: usize) -> (r: u16)
    requires
        k < DH_GROUP_COUNT,
    ensures
        r == dh_group_at(k as int),
{
    if k < 2 {
        k as u16 + 1
    } else if k == 2 {
        5
    } else {
        k as u16 + 11
    }
}

fn make_encryption_transform(id: u16, key_length: u16) -> (r: TransformAttributeV2)
    ensures
        r == encryption_transform(id, key_length),
{
    TransformAttributeV2 {
        next_transform: MORE_TRANSFORMS,
        reserved: 0,
        length: 0,
        transform_type: u8::from(TransformTypeValues::EncryptionAlgorithm),
        reserved2: 0,
        transform_id: id,
        attribute: AttributeV2 {
            attribute_type: u16::from(AttributeType::KeyLength),
            attribute_value: key_length,
        },
    }
}

fn make_plain_transform(category: TransformTypeValues, id: u16) -> (r: TransformV2)
    ensures
        r == plain_transform(category, id),
{
    TransformV2 {
        next_transform: MORE_TRANSFORMS,
        reserved: 0,
        length: 0,
        transform_type: u8::from(category),
        reserved2: 0,
        transform_id: id,
    }
}

/// One list per category, not multiplied against each other: the ciphers
/// (three entries for AES-CBC and AES-CTR, one for each other cipher), the
/// pseudo-random functions, the integrity algorithms and the Diffie-Hellman
/// groups, each in increasing order of id.
pub fn build_transforms_v2() -> (r: (
    Vec<TransformAttributeV2>,
    Vec<TransformV2>,
    Vec<TransformV2>,
    Vec<TransformV2>,
))
    ensures
        r.0@ == encryption_list(ENCRYPTION_ID_COUNT as int),
        r.1@ == Seq::new(
            PRF_COUNT as nat,
            |i: int| plain_transform(TransformTypeValues::PseudoRandomFunction, (i + 1) as u16),
        ),
        r.2@ == Seq::new(
            INTEGRITY_COUNT as nat,
            |i: int| plain_transform(TransformTypeValues::IntegrityAlgorithm, (i + 1) as u16),
        ),
        r.3@ == Seq::new(
            DH_GROUP_COUNT as nat,
            |i: int| plain_transform(TransformTypeValues::DiffieHellmanGroup, dh_group_at(i)),
        ),
{
    let mut encryption: Vec<TransformAttributeV2> = Vec::new();
    let mut k: usize = 0;
    while k < ENCRYPTION_ID_COUNT
        invariant
            k <= ENCRYPTION_ID_COUNT,
            encryption@ == encryption_list(k as int),
        decreases ENCRYPTION_ID_COUNT - k,
    {
        let id = encryption_id_code(k);
        let ghost before = encryption@;
        if id == 12 || id == 13 {
            encryption.push(make_encryption_transform(id, 128));
            encryption.push(make_encryption_transform(id, 192));
            encryption.push(make_encryption_transform(id, 256));
        } else {
            encryption.push(make_encryption_transform(id, 0));
        }
        assert(encryption@ =~= before + encryption_entries(id));
        k = k + 1;
    }
    let mut prf: Vec<TransformV2> = Vec::new();
    let mut i: usize = 0;
    while i < PRF_COUNT
        invariant
            i <= PRF_COUNT,
            prf@ == Seq::new(
                i as nat,
                |j: int| plain_transform(TransformTypeValues::PseudoRandomFunction, (j + 1) as u16),
            ),
        decreases PRF_COUNT - i,
    {
        prf.push(make_plain_transform(TransformTypeValues::PseudoRandomFunction, i as u16 + 1));
        i = i + 1;
        assert(prf@ =~= Seq::new(
            i as nat,
            |j: int| plain_transform(TransformTypeValues::PseudoRandomFunction, (j + 1) as u16),
        ));
    }
    let mut integrity: Vec<TransformV2> = Vec::new();
    let mut i: usize = 0;
    while i < INTEGRITY_COUNT
        invariant
            i <= INTEGRITY_COUNT,
            integrity@ == Seq::new(
                i as nat,
                |j: int| plain_transform(TransformTypeValues::IntegrityAlgorithm, (j + 1) as u16),
            ),
        decreases INTEGRITY_COUNT - i,
    {
        integrity.push(make_plain_transform(TransformTypeValues::IntegrityAlgorithm, i as u16 + 1));
        i = i + 1;
        assert(integrity@ =~= Seq::new(
            i as nat,
            |j: int| plain_transform(TransformTypeValues::IntegrityAlgorithm, (j + 1) as u16),
        ));
    }
    let mut groups: Vec<TransformV2> = Vec::new();
    let mut i: usize = 0;
    while i < DH_GROUP_COUNT
        invariant
            i <= DH_GROUP_COUNT,
            groups@ == Seq::new(
                i as nat,
                |j: int| plain_transform(TransformTypeValues::DiffieHellmanGroup, dh_group_at(j)),
            ),
        decreases DH_GROUP_COUNT - i,
    {
        groups.push(make_plain_transform(TransformTypeValues::DiffieHellmanGroup, dh_group_code(i)));
        i = i + 1;
        assert(groups@ =~= Seq::new(
            i as nat,
            |j: int| plain_transform(TransformTypeValues::DiffieHellmanGroup, dh_group_at(j)),
        ));
    }
    (encryption, prf, integrity, groups)
}


// ---------------------------------------------------------------- packet

/// The next-transform code of the entry at position `g` of a chain of `total`.
pub open spec fn chain_next(g: int, total: int) -> u8 {
    if g == total - 1 {
        PayloadTypeV2::NoNextPayload.code()
    } else {
        MORE_TRANSFORMS
    }
}

/// Encryption transforms placed at the start of a chain of `total`.
pub open spec fn chained_encryption(s: Seq<TransformAttributeV2>, total: int) -> Seq<
    TransformAttributeV2,
> {
    Seq::new(
        s.len(),
        |i: int| TransformAttributeV2 { next_transform: chain_next(i, total), ..s[i] },
    )
}

/// Transforms placed from position `offset` on in a chain of `total`.
pub open spec fn chained(s: Seq<TransformV2>, offset: int, total: int) -> Seq<TransformV2> {
    Seq::new(s.len(), |i: int| TransformV2 { next_transform: chain_next(offset + i, total), ..s[i] })
}

/// Bytes of a list of encryption transforms.
pub open spec fn encryption_bytes(s: Seq<TransformAttributeV2>) -> Seq<u8>
    decreases s.len(),
{
    if s.len() == 0 {
        seq![]
    } else {
        encryption_bytes(s.drop_last()) + s.last().wire_bytes()
    }
}

/// Bytes of a list of transforms without attributes.
pub open spec fn plain_bytes(s: Seq<TransformV2>) -> Seq<u8>
    decreases s.len(),
{
    if s.len() == 0 {
        seq![]
    } else {
        plain_bytes(s.drop_last()) + s.last().wire_bytes()
    }
}

fn chain_encryption(s: &[TransformAttributeV2], total: usize) -> (r: Vec<TransformAttributeV2>)
    ensures
        r@ == chained_encryption(s@, total as int),
{
    let mut out: Vec<TransformAttributeV2> = Vec::new();
    let mut i: usize = 0;
    while i < s.len()
        invariant
            i <= s@.len(),
            out@ == chained_encryption(s@, total as int).subrange(0, i as int),
        decreases s@.len() - i,
    {
        let mut t = s[i];
        t.next_transform = if total > 0 && i == total - 1 {
            u8::from(PayloadTypeV2::NoNextPayload)
        } else {
            MORE_TRANSFORMS
        };
        out.push(t);
        i = i + 1;
        assert(out@ =~= chained_encryption(s@, total as int).subrange(0, i as int));
    }
    assert(out@ =~= chained_encryption(s@, total as int));
    out
}

fn chain_plain(s: &[TransformV2], offset: usize, total: usize) -> (r: Vec<TransformV2>)
    requires
        offset + s@.len() <= total,
    ensures
        r@ == chained(s@, offset as int, total as int),
{
    let mut out: Vec<TransformV2> = Vec::new();
    let mut i: usize = 0;
    while i < s.len()
        invariant
            i <= s@.len(),
            offset + s@.len() <= total,
            out@ == chained(s@, offset as int, total as int).subrange(0, i as int),
        decreases s@.len() - i,
    {
        let mut t = s[i];
        t.next_transform = if offset + i == total - 1 {
            u8::from(PayloadTypeV2::NoNextPayload)
        } else {
            MORE_TRANSFORMS
        };
        out.push(t);
        i = i + 1;
        assert(out@ =~= chained(s@, offset as int, total as int).subrange(0, i as int));
    }
    assert(out@ =~= chained(s@, offset as int, total as int));
    out
}

fn append_encryption(s: &Vec<TransformAttributeV2>, out: &mut Vec<u8>)
    ensures
        final(out)@ == old(out)@ + encryption_bytes(s@),
{
    let ghost start = out@;
    let mut i: usize = 0;
    while i < s.len()
        invariant
            i <= s@.len(),
            out@ == start + encryption_bytes(s@.subrange(0, i as int)),
        decreases s@.len() - i,
    {
        s[i].append_bytes(out);
        assert(s@.subrange(0, i + 1).drop_last() =~= s@.subrange(0, i as int));
        i = i + 1;
        assert(out@ =~= start + encryption_bytes(s@.subrange(0, i as int)));
    }
    assert(s@.subrange(0, i as int) =~= s@);
}

fn append_plain(s: &Vec<TransformV2>, out: &mut Vec<u8>)
    ensures
        final(out)@ == old(out)@ + plain_bytes(s@),
{
    let ghost start = out@;
    let mut i: usize = 0;
    while i < s.len()
        invariant
            i <= s@.len(),
            out@ == start + plain_bytes(s@.subrange(0, i as int)),
        decreases s@.len() - i,
    {
        s[i].append_bytes(out);
        assert(s@.subrange(0, i + 1).drop_last() =~= s@.subrange(0, i as int));
        i = i + 1;
        assert(out@ =~= start + plain_bytes(s@.subrange(0, i as int)));
    }
    assert(s@.subrange(0, i as int) =~= s@);
}

fn append_data(data: &Vec<u8>, out: &mut Vec<u8>)
    ensures
        final(out)@ == old(out)@ + data@,
{
    let ghost start = out@;
    let mut i: usize = 0;
    while i < data.len()
        invariant
            i <= data@.len(),
            out@ == start + data@.subrange(0, i as int),
        decreases data@.len() - i,
    {
        out.push(data[i]);
        i = i + 1;
        assert(out@ =~= start + data@.subrange(0, i as int));
    }
    assert(data@.subrange(0, i as int) =~= data@);
}

/// A whole IKE_SA_INIT request: header, Security Association with one
/// proposal and four transform lists, key exchange and nonce.
#[derive(Debug, Clone)]
pub struct IkeV2 {
    /// The header.
    pub header: IkeV2Header,
    /// The Security Association payload header.
    pub sa_payload_v2: SecurityAssociationV2,
    /// The proposal header.
    pub proposal_v2: Proposal,
    /// Encryption transforms, first in the chain.
    pub encryption_transforms: Vec<TransformAttributeV2>,
    /// Pseudo-random function transforms.
    pub prf_transform: Vec<TransformV2>,
    /// Integrity algorithm transforms.
    pub integrity_algorithm_transform: Vec<TransformV2>,
    /// Diffie-Hellman group transforms, last in the chain.
    pub diffie_transform: Vec<TransformV2>,
    /// The key-exchange payload header.
    pub key_exchange: KeyExchangePayloadV2,
    /// The Diffie-Hellman public value.
    pub key_exchange_data: Vec<u8>,
    /// The nonce payload header.
    pub nonce_payload: NoncePayloadV2,
    /// The nonce.
    pub nonce_data: Vec<u8>,
}

impl IkeV2 {
    /// The four transform lists of [`build_transforms_v2`].
    pub fn build_transforms_v2() -> (r: (
        Vec<TransformAttributeV2>,
        Vec<TransformV2>,
        Vec<TransformV2>,
        Vec<TransformV2>,
    ))
        ensures
            r.0@ == encryption_list(ENCRYPTION_ID_COUNT as int),
            r.1@ == Seq::new(
                PRF_COUNT as nat,
                |i: int| plain_transform(TransformTypeValues::PseudoRandomFunction, (i + 1) as u16),
            ),
            r.2@ == Seq::new(
                INTEGRITY_COUNT as nat,
                |i: int| plain_transform(TransformTypeValues::IntegrityAlgorithm, (i + 1) as u16),
            ),
            r.3@ == Seq::new(
                DH_GROUP_COUNT as nat,
                |i: int| plain_transform(TransformTypeValues::DiffieHellmanGroup, dh_group_at(i)),
            ),
    {
        build_transforms_v2()
    }

    /// Length of the proposal, its transforms included.
    pub open spec fn proposal_length(self) -> int {
        PROPOSAL_HEADER_LEN + ATTRIBUTE_TRANSFORM_LEN * self.encryption_transforms@.len()
            + TRANSFORM_LEN * (self.prf_transform@.len() + self.integrity_algorithm_transform@.len()
            + self.diffie_transform@.len())
    }

    /// Length of the Security Association payload.
    pub open spec fn sa_length(self) -> int {
        SA_HEADER_LEN + self.proposal_length()
    }

    /// Length of the key-exchange payload.
    pub open spec fn key_exchange_length(self) -> int {
        KEY_EXCHANGE_HEADER_LEN + self.key_exchange_data@.len()
    }

    /// Length of the nonce payload.
    pub open spec fn nonce_length(self) -> int {
        NONCE_HEADER_LEN + self.nonce_data@.len()
    }

    /// Every payload length fits its 16-bit field.
    pub open spec fn lengths_fit(self) -> bool {
        &&& self.sa_length() <= u16::MAX
        &&& self.key_exchange_length() <= u16::MAX
        &&& self.nonce_length() <= u16::MAX
    }

    /// `self` is `p` with every length field computed from its contents.
    pub open spec fn is_resolution_of(self, p: IkeV2) -> bool {
        &&& self.header == (IkeV2Header {
            length: (HEADER_LEN + p.sa_length() + p.key_exchange_length()
                + p.nonce_length()) as u32,
            ..p.header
        })
        &&& self.sa_payload_v2 == (SecurityAssociationV2 {
            sa2_length: p.sa_length() as u16,
            ..p.sa_payload_v2
        })
        &&& self.proposal_v2 == (Proposal { length: p.proposal_length() as u16, ..p.proposal_v2 })
        &&& self.encryption_transforms@ == p.encryption_transforms@.map_values(
            |t: TransformAttributeV2| TransformAttributeV2 { length: ATTRIBUTE_TRANSFORM_LEN, ..t },
        )
        &&& self.prf_transform@ == p.prf_transform@.map_values(
            |t: TransformV2| TransformV2 { length: TRANSFORM_LEN, ..t },
        )
        &&& self.integrity_algorithm_transform@ == p.integrity_algorithm_transform@.map_values(
            |t: TransformV2| TransformV2 { length: TRANSFORM_LEN, ..t },
        )
        &&& self.diffie_transform@ == p.diffie_transform@.map_values(
            |t: TransformV2| TransformV2 { length: TRANSFORM_LEN, ..t },
        )
        &&& self.key_exchange == (KeyExchangePayloadV2 {
            length: p.key_exchange_length() as u16,
            ..p.key_exchange
        })
        &&& self.key_exchange_data@ == p.key_exchange_data@
        &&& self.nonce_payload == (NoncePayloadV2 { length: p.nonce_length() as u16, ..p.nonce_payload })
        &&& self.nonce_data@ == p.nonce_data@
    }

    /// The serialized packet.
    pub open spec fn wire_bytes(self) -> Seq<u8> {
        self.header.wire_bytes() + self.sa_payload_v2.wire_bytes() + self.proposal_v2.wire_bytes()
            + encryption_bytes(self.encryption_transforms@) + plain_bytes(self.prf_transform@)
            + plain_bytes(self.integrity_algorithm_transform@) + plain_bytes(
            self.diffie_transform@,
        ) + self.key_exchange.wire_bytes() + self.key_exchange_data@
            + self.nonce_payload.wire_bytes() + self.nonce_data@
    }

    /// A first IKE_SA_INIT request for the given initiator SPI, with no
    /// transforms, key material or lengths yet.
    pub fn new(initiator_spi: u64) -> (r: IkeV2)
        ensures
            r.header == (IkeV2Header {
                initiator_spi,
                responder_spi: 0,
                next_payload: PayloadTypeV2::SecurityAssociation.code(),
                version: 0x20,
                exchange_type: ExchangeTypeV2::IkeSaInit.code(),
                flag: 0x08,
                message_id: 0,
                length: 0,
            }),
            r.sa_payload_v2 == (SecurityAssociationV2 {
                sa2_next_payload: PayloadTypeV2::KeyExchange.code(),
                critical_bit: 0,
                sa2_length: 0,
            }),
            r.proposal_v2 == (Proposal {
                next_proposal: 0,
                reserved: 0,
                length: 0,
                proposal_number: 1,
                protocol_id: ProtocolId::IKE,
                spi_size: 0,
                number_of_transforms: 0,
            }),
            r.encryption_transforms@.len() == 0,
            r.prf_transform@.len() == 0,
            r.integrity_algorithm_transform@.len() == 0,
            r.diffie_transform@.len() == 0,
            r.key_exchange == (KeyExchangePayloadV2 {
                next_payload: PayloadTypeV2::Nonce.code(),
                reserved: 0,
                length: 0,
                diffie_hellman_group: 2,
                reserved2: 0,
            }),
            r.key_exchange_data@.len() == 0,
            r.nonce_payload == (NoncePayloadV2 {
                next_payload_: PayloadTypeV2::NoNextPayload.code(),
                reserved: 0,
                length: 0,
            }),
            r.nonce_data@.len() == 0,
    {
        IkeV2 {
            header: IkeV2Header {
                initiator_spi,
                responder_spi: 0,
                next_payload: u8::from(PayloadTypeV2::SecurityAssociation),
                version: 0x20,
                exchange_type: u8::from(ExchangeTypeV2::IkeSaInit),
                flag: 0x08,
                message_id: 0,
                length: 0,
            },
            sa_payload_v2: SecurityAssociationV2 {
                sa2_next_payload: u8::from(PayloadTypeV2::KeyExchange),
                critical_bit: 0,
                sa2_length: 0,
            },
            proposal_v2: Proposal {
                next_proposal: 0,
                reserved: 0,
                length: 0,
                proposal_number: 1,
                protocol_id: ProtocolId::IKE,
                spi_size: 0,
                number_of_transforms: 0,
            },
            encryption_transforms: Vec::new(),
            prf_transform: Vec::new(),
            integrity_algorithm_transform: Vec::new(),
            diffie_transform: Vec::new(),
            key_exchange: KeyExchangePayloadV2 {
                next_payload: u8::from(PayloadTypeV2::Nonce),
                reserved: 0,
                length: 0,
                diffie_hellman_group: 2,
                reserved2: 0,
            },
            key_exchange_data: Vec::new(),
            nonce_payload: NoncePayloadV2 {
                next_payload_: u8::from(PayloadTypeV2::NoNextPayload),
                reserved: 0,
                length: 0,
            },
            nonce_data: Vec::new(),
        }
    }

    /// Attaches the four transform lists as one chain, in the order
    /// encryption, PRF, integrity, Diffie-Hellman group: every entry points
    /// to a following one but the very last. More than 255 transforms in all
    /// are refused and the packet left as it was.
    pub fn set_transforms_v2(
        &mut self,
        encryption: &[TransformAttributeV2],
        prf: &[TransformV2],
        integrity_algorithm: &[TransformV2],
        diffie_group: &[TransformV2],
    ) -> (r: Result<(), BuildError>)
        ensures
            ({
                let ne = encryption@.len() as int;
                let np = prf@.len() as int;
                let ni = integrity_algorithm@.len() as int;
                let total = ne + np + ni + diffie_group@.len();
                &&& r is Err <==> total > MAX_TRANSFORMS
                &&& r is Err ==> r == Err::<(), BuildError>(BuildError::TooManyTransforms)
                &&& r is Err ==> *final(self) == *old(self)
                &&& r is Ok ==> {
                    &&& *final(self) == (IkeV2 {
                        proposal_v2: Proposal {
                            number_of_transforms: total as u8,
                            ..old(self).proposal_v2
                        },
                        encryption_transforms: final(self).encryption_transforms,
                        prf_transform: final(self).prf_transform,
                        integrity_algorithm_transform: final(self).integrity_algorithm_transform,
                        diffie_transform: final(self).diffie_transform,
                        ..*old(self)
                    })
                    &&& final(self).encryption_transforms@ == chained_encryption(encryption@, total)
                    &&& final(self).prf_transform@ == chained(prf@, ne, total)
                    &&& final(self).integrity_algorithm_transform@ == chained(
                        integrity_algorithm@,
                        ne + np,
                        total,
                    )
                    &&& final(self).diffie_transform@ == chained(
                        diffie_group@,
                        ne + np + ni,
                        total,
                    )
                }
            }),
    {
        let ne = encryption.len();
        if ne > MAX_TRANSFORMS || prf.len() > MAX_TRANSFORMS - ne {
            return Err(BuildError::TooManyTransforms);
        }
        let np = prf.len();
        if integrity_algorithm.len() > MAX_TRANSFORMS - ne - np {
            return Err(BuildError::TooManyTransforms);
        }
        let ni = integrity_algorithm.len();
        if diffie_group.len() > MAX_TRANSFORMS - ne - np - ni {
            return Err(BuildError::TooManyTransforms);
        }
        let total = ne + np + ni + diffie_group.len();
        self.proposal_v2.number_of_transforms = total as u8;
        self.encryption_transforms = chain_encryption(encryption, total);
        self.prf_transform = chain_plain(prf, ne, total);
        self.integrity_algorithm_transform = chain_plain(integrity_algorithm, ne + np, total);
        self.diffie_transform = chain_plain(diffie_group, ne + np + ni, total);
        Ok(())
    }

    /// Resolves every length field bottom-up: each transform's own length,
    /// then the proposal, the Security Association, the key exchange, the
    /// nonce and the whole packet. Where a payload would outgrow its 16-bit
    /// length field the packet is left as it was.
    pub fn calculate_length_v2(&mut self) -> (r: Result<(), BuildError>)
        ensures
            r is Ok <==> old(self).lengths_fit(),
            r is Err ==> r == Err::<(), BuildError>(BuildError::LengthOverflow),
            r is Err ==> *final(self) == *old(self),
            r is Ok ==> final(self).is_resolution_of(*old(self)),
    {
        let ne = self.encryption_transforms.len();
        let np = self.prf_transform.len();
        let ni = self.integrity_algorithm_transform.len();
        let nd = self.diffie_transform.len();
        if ne > 0xffff || np > 0xffff || ni > 0xffff || nd > 0xffff {
            return Err(BuildError::LengthOverflow);
        }
        let proposal_length: u64 = PROPOSAL_HEADER_LEN as u64 + ATTRIBUTE_TRANSFORM_LEN as u64
            * ne as u64 + TRANSFORM_LEN as u64 * (np as u64 + ni as u64 + nd as u64);
        let sa_length: u64 = SA_HEADER_LEN as u64 + proposal_length;
        if sa_length > 0xffff || self.key_exchange_data.len() > 0xffff - 8
            || self.nonce_data.len() > 0xffff - 4 {
            return Err(BuildError::LengthOverflow);
        }
        let mut encryption: Vec<TransformAttributeV2> = Vec::new();
        let mut i: usize = 0;
        while i < ne
            invariant
                ne == self.encryption_transforms@.len(),
                i <= ne,
                encryption@ == self.encryption_transforms@.map_values(
                    |t: TransformAttributeV2|
                        TransformAttributeV2 { length: ATTRIBUTE_TRANSFORM_LEN, ..t },
                ).subrange(0, i as int),
            decreases ne - i,
        {
            let mut t = self.encryption_transforms[i];
            t.calculate_length();
            encryption.push(t);
            i = i + 1;
            assert(encryption@ =~= self.encryption_transforms@.map_values(
                |t: TransformAttributeV2|
                    TransformAttributeV2 { length: ATTRIBUTE_TRANSFORM_LEN, ..t },
            ).subrange(0, i as int));
        }
        let prf = resolve_plain(&self.prf_transform);
        let integrity = resolve_plain(&self.integrity_algorithm_transform);
        let groups = resolve_plain(&self.diffie_transform);
        proof {
            assert(encryption@ =~= self.encryption_transforms@.map_values(
                |t: TransformAttributeV2|
                    TransformAttributeV2 { length: ATTRIBUTE_TRANSFORM_LEN, ..t },
            ));
        }
        self.encryption_transforms = encryption;
        self.prf_transform = prf;
        self.integrity_algorithm_transform = integrity;
        self.diffie_transform = groups;
        self.proposal_v2.length = proposal_length as u16;
        self.sa_payload_v2.sa2_length = sa_length as u16;
        self.key_exchange.length = KEY_EXCHANGE_HEADER_LEN + self.key_exchange_data.len() as u16;
        self.nonce_payload.length = NONCE_HEADER_LEN + self.nonce_data.len() as u16;
        self.header.length = HEADER_LEN as u32 + self.sa_payload_v2.sa2_length as u32
            + self.key_exchange.length as u32 + self.nonce_payload.length as u32;
        Ok(())
    }

    /// The packet as bytes, in protocol order: header, Security Association,
    /// proposal, the encryption, PRF, integrity and Diffie-Hellman transforms,
    /// key-exchange header and data, nonce header and data.
    #[verifier::spinoff_prover]
    #[verifier::rlimit(40)]
    pub fn convert_to_bytes_v2(&mut self) -> (r: Vec<u8>)
        ensures
            *final(self) == *old(self),
            r@ == old(self).wire_bytes(),
    {
        let mut out: Vec<u8> = Vec::new();
        self.header.append_bytes(&mut out);
        self.sa_payload_v2.append_bytes(&mut out);
        self.proposal_v2.append_bytes(&mut out);
        append_encryption(&self.encryption_transforms, &mut out);
        append_plain(&self.prf_transform, &mut out);
        append_plain(&self.integrity_algorithm_transform, &mut out);
        append_plain(&self.diffie_transform, &mut out);
        self.key_exchange.append_bytes(&mut out);
        append_data(&self.key_exchange_data, &mut out);
        self.nonce_payload.append_bytes(&mut out);
        append_data(&self.nonce_data, &mut out);
        out
    }
}

fn resolve_plain(s: &Vec<TransformV2>) -> (r: Vec<TransformV2>)
    ensures
        r@ == s@.map_values(|t: TransformV2| TransformV2 { length: TRANSFORM_LEN, ..t }),
{
    let mut out: Vec<TransformV2> = Vec::new();
    let mut i: usize = 0;
    while i < s.len()
        invariant
            i <= s@.len(),
            out@ == s@.map_values(
                |t: TransformV2| TransformV2 { length: TRANSFORM_LEN, ..t },
            ).subrange(0, i as int),
        decreases s@.len() - i,
    {
        let mut t = s[i];
        t.calculate_length();
        out.push(t);
        i = i + 1;
        assert(out@ =~= s@.map_values(
            |t: TransformV2| TransformV2 { length: TRANSFORM_LEN, ..t },
        ).subrange(0, i as int));
    }
    assert(out@ =~= s@.map_values(|t: TransformV2| TransformV2 { length: TRANSFORM_LEN, ..t }));
    out
}


// ---------------------------------------------------------------- key material

#[verifier::external_type_specification]
#[verifier::external_body]
#[verifier::reject_recursive_types(T)]
pub struct ExDh<T>(Dh<T>);

#[verifier::external_type_specification]
#[verifier::external_body]
pub struct ExParams(Params);

#[verifier::external_type_specification]
#[verifier::external_body]
pub struct ExPrivate(Private);

#[verifier::external_type_specification]
#[verifier::external_body]
pub struct ExErrorStack(ErrorStack);

#[verifier::external_type_specification]
#[verifier::external_body]
pub struct ExBigNumRef(BigNumRef);

/// Relies on openssl's `Dh::generate_params`: fresh domain parameters with a
/// prime of `prime_len` bits and the given generator, or OpenSSL's error.
#[verifier::external_body]
fn dh_generate_params(prime_len: u32, generator: u32) -> (r: Result<Dh<Params>, ErrorStack>) {
    Dh::generate_params(prime_len, generator)
}

/// Relies on openssl's `Dh::generate_key`: an ephemeral key pair over the
/// parameters, or OpenSSL's error.
#[verifier::external_body]
fn dh_generate_key(params: Dh<Params>) -> (r: Result<Dh<Private>, ErrorStack>) {
    params.generate_key()
}

/// Relies on openssl's `Dh::prime_p`: the prime of the key's parameters.
#[verifier::external_body]
fn dh_prime_p(key: &Dh<Private>) -> (r: &BigNumRef) {
    key.prime_p()
}

/// Relies on openssl's `DhRef::public_key`: the public value of the key pair.
#[verifier::external_body]
fn dh_public_key(key: &Dh<Private>) -> (r: &BigNumRef) {
    key.public_key()
}

/// Relies on openssl's `BigNumRef::num_bytes`: the size of the number in bytes.
#[verifier::external_body]
fn bn_num_bytes(n: &BigNumRef) -> (r: i32) {
    n.num_bytes()
}

/// Relies on openssl's `BigNumRef::to_vec_padded`: the number in big-endian
/// bytes, left-padded with zeros to exactly `pad_to` bytes, or OpenSSL's
/// error where it does not fit.
#[verifier::external_body]
fn bn_to_vec_padded(n: &BigNumRef, pad_to: i32) -> (r: Result<Vec<u8>, ErrorStack>)
    requires
        pad_to >= 0,
    ensures
        r matches Ok(v) ==> v@.len() == pad_to,
{
    n.to_vec_padded(pad_to)
}

pub assume_specification<T>[ rand::random::<T> ]() -> (r: T)
    where
        rand::distributions::Standard: rand::distributions::Distribution<T>,
;

impl IkeV2 {
    /// Produces the Diffie-Hellman exchange data: fresh parameters with a
    /// 1024-bit prime and generator 2, an ephemeral key pair, and its public
    /// value left-padded with zeros to the byte length of the prime, as
    /// [`key_exchange_data_from`] decides from what OpenSSL returned. On a
    /// failure the packet is left as it was.
    pub fn generate_key_exchange_data(&mut self) -> (r: Result<(), BuildError>)
        ensures
            r is Err ==> r == Err::<(), BuildError>(BuildError::KeyMaterial),
            r is Err ==> *final(self) == *old(self),
            r is Ok ==> *final(self) == (IkeV2 {
                key_exchange_data: final(self).key_exchange_data,
                ..*old(self)
            }),
            r is Ok ==> final(self).key_exchange_data@.len() == DH_PRIME_BYTES,
    {
        let params = match dh_generate_params(DH_PRIME_BITS, DH_GENERATOR) {
            Ok(params) => params,
            Err(_) => return Err(BuildError::KeyMaterial),
        };
        let key = match dh_generate_key(params) {
            Ok(key) => key,
            Err(_) => return Err(BuildError::KeyMaterial),
        };
        let prime_bytes = bn_num_bytes(dh_prime_p(&key));
        let padded = match bn_to_vec_padded(dh_public_key(&key), DH_PRIME_BYTES) {
            Ok(bytes) => Some(bytes),
            Err(_) => None,
        };
        match key_exchange_data_from(prime_bytes, padded) {
            Ok(data) => {
                self.key_exchange_data = data;
                Ok(())
            },
            Err(e) => Err(e),
        }
    }

    /// Fills the nonce with 174 random bytes.
    pub fn generate_nonce_data(&mut self)
        ensures
            *final(self) == (IkeV2 { nonce_data: final(self).nonce_data, ..*old(self) }),
            final(self).nonce_data@.len() == NONCE_LEN,
    {
        let mut nonce: Vec<u8> = Vec::new();
        let mut i: usize = 0;
        while i < NONCE_LEN
            invariant
                i <= NONCE_LEN,
                nonce@.len() == i,
            decreases NONCE_LEN - i,
        {
            nonce.push(rand::random::<u8>());
            i = i + 1;
        }
        self.nonce_data = nonce;
    }
}


/// The key-exchange data from the byte length of the generated prime and the
/// public value padded to `DH_PRIME_BYTES` (`None` where padding failed): the
/// padded value where the prime has exactly that length, else a failure.
pub fn key_exchange_data_from(prime_bytes: i32, padded: Option<Vec<u8>>) -> (r: Result<
    Vec<u8>,
    BuildError,
>)
    ensures
        prime_bytes != DH_PRIME_BYTES ==> r == Err::<Vec<u8>, BuildError>(BuildError::KeyMaterial),
        prime_bytes == DH_PRIME_BYTES ==> (r is Ok <==> padded is Some),
        r is Err ==> r == Err::<Vec<u8>, BuildError>(BuildError::KeyMaterial),
        r matches Ok(v) ==> padded == Some(v),
{
    if prime_bytes != DH_PRIME_BYTES {
        return Err(BuildError::KeyMaterial);
    }
    match padded {
        Some(v) => Ok(v),
        None => Err(BuildError::KeyMaterial),
    }
}

// ---------------------------------------------------------------- laws

/// Whether an encryption transform is for the given cipher.
pub open spec fn for_cipher(id: u16) -> spec_fn(TransformAttributeV2) -> bool {
    |t: TransformAttributeV2| t.transform_id == id
}

proof fn lemma_entries_for_cipher(id: u16, other: u16)
    ensures
        encryption_entries(other).filter(for_cipher(id)) == if other == id {
            encryption_entries(id)
        } else {
            Seq::<TransformAttributeV2>::empty()
        },
{
    reveal_with_fuel(Seq::<_>::filter, 4);
    let e = encryption_entries(other);
    if needs_key_length(other) {
        assert(e.drop_last().drop_last().drop_last() =~= Seq::<TransformAttributeV2>::empty());
        assert(e.drop_last().drop_last() =~= seq![encryption_transform(other, 128)]);
        assert(e.drop_last() =~= seq![
            encryption_transform(other, 128),
            encryption_transform(other, 192),
        ]);
    } else {
        assert(e.drop_last() =~= Seq::<TransformAttributeV2>::empty());
    }
    assert(e.filter(for_cipher(id)) =~= if other == id {
        encryption_entries(id)
    } else {
        Seq::<TransformAttributeV2>::empty()
    });
}

#[verifier::spinoff_prover]
#[verifier::rlimit(40)]
proof fn lemma_encryption_list_for_cipher(n: int, k: int)
    requires
        0 <= n <= ENCRYPTION_ID_COUNT,
        0 <= k < ENCRYPTION_ID_COUNT,
    ensures
        encryption_list(n).filter(for_cipher(encryption_id_at(k))) == if k < n {
            encryption_entries(encryption_id_at(k))
        } else {
            Seq::<TransformAttributeV2>::empty()
        },
    decreases n,
{
    let id = encryption_id_at(k);
    if n == 0 {
        assert(encryption_list(0) =~= Seq::<TransformAttributeV2>::empty());
    } else {
        lemma_encryption_list_for_cipher(n - 1, k);
        let other = encryption_id_at(n - 1);
        Seq::filter_distributes_over_add(
            encryption_list(n - 1),
            encryption_entries(other),
            for_cipher(id),
        );
        lemma_entries_for_cipher(id, other);
        assert(other == id <==> n - 1 == k);
        if k < n - 1 {
            assert(encryption_list(n).filter(for_cipher(id)) =~= encryption_entries(id));
        } else if k == n - 1 {
            assert(encryption_list(n).filter(for_cipher(id)) =~= encryption_entries(id));
        } else {
            assert(encryption_list(n).filter(for_cipher(id)) =~= Seq::<
                TransformAttributeV2,
            >::empty());
        }
    }
}

/// In the generated encryption list, AES-CBC and AES-CTR each have exactly
/// three entries, with key lengths 128, 192 and 256, and every other probed
/// cipher exactly one, with a zero key length.
pub proof fn lemma_encryption_entries_per_cipher(k: int)
    requires
        0 <= k < ENCRYPTION_ID_COUNT,
    ensures
        ({
            let id = encryption_id_at(k);
            let entries = encryption_list(ENCRYPTION_ID_COUNT as int).filter(for_cipher(id));
            &&& needs_key_length(id) ==> entries == seq![
                encryption_transform(id, 128),
                encryption_transform(id, 192),
                encryption_transform(id, 256),
            ]
            &&& !needs_key_length(id) ==> entries == seq![encryption_transform(id, 0)]
        }),
{
    lemma_encryption_list_for_cipher(ENCRYPTION_ID_COUNT as int, k);
}

/// In a chain of at most 255 transforms built from the four lists, only the
/// very last entry, the last Diffie-Hellman group where there is one, carries
/// the terminal marker; every other entry points to a following transform.
pub proof fn lemma_chain_terminal(
    encryption: Seq<TransformAttributeV2>,
    prf: Seq<TransformV2>,
    integrity: Seq<TransformV2>,
    groups: Seq<TransformV2>,
)
    requires
        encryption.len() + prf.len() + integrity.len() + groups.len() <= MAX_TRANSFORMS,
    ensures
        ({
            let ne = encryption.len() as int;
            let np = prf.len() as int;
            let ni = integrity.len() as int;
            let total = ne + np + ni + groups.len();
            &&& forall|j: int|
                0 <= j < ne ==> ((#[trigger] chained_encryption(encryption, total)[j]).next_transform == 0
                    <==> j == total - 1)
            &&& forall|j: int|
                0 <= j < np ==> ((#[trigger] chained(prf, ne, total)[j]).next_transform == 0 <==> ne + j
                    == total - 1)
            &&& forall|j: int|
                0 <= j < ni ==> ((#[trigger] chained(integrity, ne + np, total)[j]).next_transform == 0 <==> ne
                    + np + j == total - 1)
            &&& forall|j: int|
                0 <= j < groups.len() ==> ((#[trigger] chained(groups, ne + np + ni, total)[j]).next_transform
                    == 0 <==> j == groups.len() - 1)
            &&& groups.len() > 0 ==> forall|j: int|
                0 <= j < ne ==> (#[trigger] chained_encryption(encryption, total)[j]).next_transform
                    == MORE_TRANSFORMS
        }),
{
}

/// Resolving the lengths of a packet a second time yields the same length
/// fields and transforms as the first time.
#[verifier::spinoff_prover]
#[verifier::rlimit(60)]
pub proof fn lemma_resolution_idempotent_v2(p: IkeV2, q: IkeV2, r: IkeV2)
    requires
        q.is_resolution_of(p),
        r.is_resolution_of(q),
    ensures
        p.lengths_fit() ==> q.lengths_fit(),
        r.header == q.header,
        r.sa_payload_v2 == q.sa_payload_v2,
        r.proposal_v2 == q.proposal_v2,
        r.encryption_transforms@ == q.encryption_transforms@,
        r.prf_transform@ == q.prf_transform@,
        r.integrity_algorithm_transform@ == q.integrity_algorithm_transform@,
        r.diffie_transform@ == q.diffie_transform@,
        r.key_exchange == q.key_exchange,
        r.key_exchange_data@ == q.key_exchange_data@,
        r.nonce_payload == q.nonce_payload,
        r.nonce_data@ == q.nonce_data@,
{
    assert(r.encryption_transforms@ =~= q.encryption_transforms@);
    assert(r.prf_transform@ =~= q.prf_transform@);
    assert(r.integrity_algorithm_transform@ =~= q.integrity_algorithm_transform@);
    assert(r.diffie_transform@ =~= q.diffie_transform@);
}

proof fn lemma_encryption_bytes_len(s: Seq<TransformAttributeV2>)
    ensures
        encryption_bytes(s).len() == ATTRIBUTE_TRANSFORM_LEN * s.len(),
    decreases s.len(),
{
    if s.len() > 0 {
        lemma_encryption_bytes_len(s.drop_last());
    }
}

proof fn lemma_plain_bytes_len(s: Seq<TransformV2>)
    ensures
        plain_bytes(s).len() == TRANSFORM_LEN * s.len(),
    decreases s.len(),
{
    if s.len() > 0 {
        lemma_plain_bytes_len(s.drop_last());
    }
}

/// Once its lengths are resolved, a packet declares in its header exactly the
/// number of bytes it serializes to, its key-exchange payload is 8 bytes
/// longer than the exchange data and its nonce payload 4 bytes longer than
/// the nonce.
#[verifier::spinoff_prover]
#[verifier::rlimit(60)]
pub proof fn lemma_declared_length_v2(p: IkeV2, q: IkeV2)
    requires
        p.lengths_fit(),
        q.is_resolution_of(p),
    ensures
        q.wire_bytes().len() == q.header.length,
        q.key_exchange.length == KEY_EXCHANGE_HEADER_LEN + q.key_exchange_data@.len(),
        q.nonce_payload.length == NONCE_HEADER_LEN + q.nonce_data@.len(),
{
    let ne = q.encryption_transforms@.len();
    let np = q.prf_transform@.len();
    let ni = q.integrity_algorithm_transform@.len();
    let nd = q.diffie_transform@.len();
    assert(ne == p.encryption_transforms@.len());
    assert(np == p.prf_transform@.len());
    assert(ni == p.integrity_algorithm_transform@.len());
    assert(nd == p.diffie_transform@.len());
    lemma_encryption_bytes_len(q.encryption_transforms@);
    lemma_plain_bytes_len(q.prf_transform@);
    lemma_plain_bytes_len(q.integrity_algorithm_transform@);
    lemma_plain_bytes_len(q.diffie_transform@);
    let fixed = q.header.wire_bytes().len() + q.sa_payload_v2.wire_bytes().len()
        + q.proposal_v2.wire_bytes().len() + q.key_exchange.wire_bytes().len()
        + q.nonce_payload.wire_bytes().len();
    assert(fixed == 52);
    let transforms = encryption_bytes(q.encryption_transforms@).len() + plain_bytes(
        q.prf_transform@,
    ).len() + plain_bytes(q.integrity_algorithm_transform@).len() + plain_bytes(
        q.diffie_transform@,
    ).len();
    assert(transforms == 12 * ne + 8 * (np + ni + nd));
    assert(q.wire_bytes().len() == fixed + transforms + q.key_exchange_data@.len()
        + q.nonce_data@.len());
    assert(p.sa_length() == 12 + 12 * ne + 8 * (np + ni + nd));
}


/// Every reserved field of a list of transforms is zero.
pub open spec fn plain_reserved_clear(s: Seq<TransformV2>) -> bool {
    forall|i: int| 0 <= i < s.len() ==> (#[trigger] s[i]).reserved == 0 && s[i].reserved2 == 0
}

impl IkeV2 {
    /// Every reserved field of the packet is zero.
    pub open spec fn reserved_clear(self) -> bool {
        &&& self.sa_payload_v2.critical_bit == 0
        &&& self.proposal_v2.reserved == 0
        &&& forall|i: int|
            0 <= i < self.encryption_transforms@.len() ==> (
            #[trigger] self.encryption_transforms@[i]).reserved == 0
                && self.encryption_transforms@[i].reserved2 == 0
        &&& plain_reserved_clear(self.prf_transform@)
        &&& plain_reserved_clear(self.integrity_algorithm_transform@)
        &&& plain_reserved_clear(self.diffie_transform@)
        &&& self.key_exchange.reserved == 0
        &&& self.key_exchange.reserved2 == 0
        &&& self.nonce_payload.reserved == 0
    }
}

proof fn lemma_encryption_bytes_at(s: Seq<TransformAttributeV2>, k: int, o: int)
    requires
        0 <= k < s.len(),
        0 <= o < ATTRIBUTE_TRANSFORM_LEN,
    ensures
        encryption_bytes(s)[ATTRIBUTE_TRANSFORM_LEN * k + o] == s[k].wire_bytes()[o],
    decreases s.len(),
{
    lemma_encryption_bytes_len(s.drop_last());
    if k < s.len() - 1 {
        lemma_encryption_bytes_at(s.drop_last(), k, o);
    }
}

proof fn lemma_plain_bytes_at(s: Seq<TransformV2>, k: int, o: int)
    requires
        0 <= k < s.len(),
        0 <= o < TRANSFORM_LEN,
    ensures
        plain_bytes(s)[TRANSFORM_LEN * k + o] == s[k].wire_bytes()[o],
    decreases s.len(),
{
    lemma_plain_bytes_len(s.drop_last());
    if k < s.len() - 1 {
        lemma_plain_bytes_at(s.drop_last(), k, o);
    }
}

proof fn lemma_plain_reserved_at(s: Seq<TransformV2>, x: int)
    requires
        plain_reserved_clear(s),
        0 <= x < TRANSFORM_LEN * s.len(),
        x % 8 == 1 || x % 8 == 5,
    ensures
        plain_bytes(s)[x] == 0,
{
    vstd::arithmetic::div_mod::lemma_fundamental_div_mod(x, 8);
    let k = x / 8;
    assert(s[k].reserved == 0 && s[k].reserved2 == 0);
    lemma_plain_bytes_at(s, k, x % 8);
}

proof fn lemma_encryption_reserved_at(s: Seq<TransformAttributeV2>, x: int)
    requires
        forall|i: int|
            0 <= i < s.len() ==> (#[trigger] s[i]).reserved == 0 && s[i].reserved2 == 0,
        0 <= x < ATTRIBUTE_TRANSFORM_LEN * s.len(),
        x % 12 == 1 || x % 12 == 5,
    ensures
        encryption_bytes(s)[x] == 0,
{
    vstd::arithmetic::div_mod::lemma_fundamental_div_mod(x, 12);
    let k = x / 12;
    assert(s[k].reserved == 0 && s[k].reserved2 == 0);
    lemma_encryption_bytes_at(s, k, x % 12);
}

/// In the bytes of a packet whose reserved fields are clear, every reserved
/// byte is zero: those of the Security Association and the proposal, the two
/// of each transform of the four lists, those of the key-exchange header and
/// that of the nonce header.
#[verifier::spinoff_prover]
#[verifier::rlimit(60)]
pub proof fn lemma_reserved_bytes_zero_v2(p: IkeV2)
    requires
        p.reserved_clear(),
    ensures
        ({
            let b = p.wire_bytes();
            let prf_at = 40 + ATTRIBUTE_TRANSFORM_LEN * p.encryption_transforms@.len();
            let integrity_at = prf_at + TRANSFORM_LEN * p.prf_transform@.len();
            let groups_at = integrity_at + TRANSFORM_LEN * p.integrity_algorithm_transform@.len();
            let key_exchange_at = groups_at + TRANSFORM_LEN * p.diffie_transform@.len();
            let nonce_at = key_exchange_at + 8 + p.key_exchange_data@.len();
            &&& b[29] == 0
            &&& b[33] == 0
            &&& forall|j: int|
                40 <= j < prf_at && ((j - 40) % 12 == 1 || (j - 40) % 12 == 5) ==> #[trigger] b[j]
                    == 0
            &&& forall|j: int|
                prf_at <= j < integrity_at && ((j - prf_at) % 8 == 1 || (j - prf_at) % 8 == 5)
                    ==> #[trigger] b[j] == 0
            &&& forall|j: int|
                integrity_at <= j < groups_at && ((j - integrity_at) % 8 == 1 || (j - integrity_at)
                    % 8 == 5) ==> #[trigger] b[j] == 0
            &&& forall|j: int|
                groups_at <= j < key_exchange_at && ((j - groups_at) % 8 == 1 || (j - groups_at) % 8
                    == 5) ==> #[trigger] b[j] == 0
            &&& b[key_exchange_at + 1] == 0
            &&& b[key_exchange_at + 6] == 0
            &&& b[key_exchange_at + 7] == 0
            &&& b[nonce_at + 1] == 0
        }),
{
    let h = p.header.wire_bytes();
    let sa = p.sa_payload_v2.wire_bytes();
    let pr = p.proposal_v2.wire_bytes();
    let e = encryption_bytes(p.encryption_transforms@);
    let pf = plain_bytes(p.prf_transform@);
    let ig = plain_bytes(p.integrity_algorithm_transform@);
    let dg = plain_bytes(p.diffie_transform@);
    let ke = p.key_exchange.wire_bytes();
    let kd = p.key_exchange_data@;
    let nh = p.nonce_payload.wire_bytes();
    let nd = p.nonce_data@;
    lemma_encryption_bytes_len(p.encryption_transforms@);
    lemma_plain_bytes_len(p.prf_transform@);
    lemma_plain_bytes_len(p.integrity_algorithm_transform@);
    lemma_plain_bytes_len(p.diffie_transform@);
    let s0 = h + sa + pr;
    let s1 = s0 + e;
    let s2 = s1 + pf;
    let s3 = s2 + ig;
    let s4 = s3 + dg;
    let s5 = s4 + ke;
    let s6 = s5 + kd;
    let s7 = s6 + nh;
    let b = s7 + nd;
    assert(b == p.wire_bytes());
    assert(h.len() == 28 && sa.len() == 4 && pr.len() == 8 && ke.len() == 8 && nh.len() == 4);
    assert(s0.len() == 40);
    assert(b[29] == sa[1]);
    assert(b[33] == pr[1]);
    let prf_at = s1.len() as int;
    let integrity_at = s2.len() as int;
    let groups_at = s3.len() as int;
    let key_exchange_at = s4.len() as int;
    assert forall|j: int|
        40 <= j < prf_at && ((j - 40) % 12 == 1 || (j - 40) % 12 == 5) implies #[trigger] b[j]
            == 0 by {
        lemma_encryption_reserved_at(p.encryption_transforms@, j - 40);
        assert(b[j] == s1[j]);
    }
    assert forall|j: int|
        prf_at <= j < integrity_at && ((j - prf_at) % 8 == 1 || (j - prf_at) % 8 == 5) implies #[trigger] b[j]
            == 0 by {
        lemma_plain_reserved_at(p.prf_transform@, j - prf_at);
        assert(b[j] == s2[j]);
    }
    assert forall|j: int|
        integrity_at <= j < groups_at && ((j - integrity_at) % 8 == 1 || (j - integrity_at) % 8
            == 5) implies #[trigger] b[j] == 0 by {
        lemma_plain_reserved_at(p.integrity_algorithm_transform@, j - integrity_at);
        assert(b[j] == s3[j]);
    }
    assert forall|j: int|
        groups_at <= j < key_exchange_at && ((j - groups_at) % 8 == 1 || (j - groups_at) % 8 == 5) implies #[trigger] b[j]
            == 0 by {
        lemma_plain_reserved_at(p.diffie_transform@, j - groups_at);
        assert(b[j] == s4[j]);
    }
    assert(b[key_exchange_at + 1] == ke[1]);
    assert(b[key_exchange_at + 6] == ke[6]);
    assert(b[key_exchange_at + 7] == ke[7]);
    let nonce_at = s6.len() as int;
    assert(b[nonce_at + 1] == nh[1]);
}

} // verus!
