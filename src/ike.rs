//! IKEv1 probe packets (RFC 2408 layouts): records, code tables, transform
//! generation and normalization, length resolution and serialization.
use vstd::prelude::*;

use crate::wire::{be16, be32, be64, put_u16, put_u32, put_u64, put_u8};
use crate::BuildError;

verus! {

/// Size in bytes of the fixed IKE header.
pub const HEADER_LEN: u16 = 28;

/// Size in bytes of the IKEv1 Security Association payload header.
pub const SA_HEADER_LEN: u16 = 12;

/// Size in bytes of a proposal payload header.
pub const PROPOSAL_HEADER_LEN: u16 = 8;

/// Size in bytes of one IKEv1 transform with its attributes.
pub const TRANSFORM_LEN: u16 = 36;

/// Most transforms that the one-byte count of a proposal can announce.
pub const MAX_TRANSFORMS: usize = 255;

/// Life duration of a generated transform, in seconds (eight hours).
pub const LIFE_DURATION_SECONDS: u32 = 28800;

// ---------------------------------------------------------------- records

/// The fixed ISAKMP header.
#[derive(Debug, Clone, Copy, PartialEq, Eq, Structural)]
pub struct IkeV1Header {
    /// Initiator's security parameter index.
    pub initiator_spi: u64,
    /// Responder's security parameter index; zero in a first message.
    pub responder_spi: u64,
    /// Type of the first payload (usually the Security Association).
    pub next_payload: u8,
    /// Major and minor version, one nibble each.
    pub version: u8,
    /// Exchange type code.
    pub exchange_type: u8,
    /// Flags; zero in a first message.
    pub flag: u8,
    /// Message id; zero in a first message.
    pub message_id: u32,
    /// Length of the whole packet, header included.
    pub length: u32,
}

impl IkeV1Header {
    pub open spec fn wire_bytes(&self) -> Seq<u8> {
        be64(self.initiator_spi) + be64(self.responder_spi) + seq![
            self.next_payload,
            self.version,
            self.exchange_type,
            self.flag,
        ] + be32(self.message_id) + be32(self.length)
    }

    /// Appends the 28 bytes of the header.
    pub fn append_bytes(&self, out: &mut Vec<u8>)
        ensures
            final(out)@ == old(out)@ + self.wire_bytes(),
    {
        let ghost start = out@;
        put_u64(out, self.initiator_spi);
        put_u64(out, self.responder_spi);
        put_u8(out, self.next_payload);
        put_u8(out, self.version);
        put_u8(out, self.exchange_type);
        put_u8(out, self.flag);
        put_u32(out, self.message_id);
        put_u32(out, self.length);
        assert(out@ =~= start + self.wire_bytes());
    }
}

/// The Security Association payload header.
#[derive(Debug, Clone, Copy, PartialEq, Eq, Structural)]
pub struct SecurityAssociationV1 {
    /// Type of the payload after this one.
    pub sa_next_payload: u8,
    /// Reserved; always zero.
    pub reserved: u8,
    /// Length of the payload, proposal and transforms included.
    pub sa_length: u16,
    /// Domain of interpretation.
    pub sa_doi: u32,
    /// Situation bitmask.
    pub sa_situation: u32,
}

impl SecurityAssociationV1 {
    pub open spec fn wire_bytes(&self) -> Seq<u8> {
        seq![self.sa_next_payload, self.reserved] + be16(self.sa_length) + be32(self.sa_doi)
            + be32(self.sa_situation)
    }

    /// Appends the 12 bytes of the payload header.
    pub fn append_bytes(&self, out: &mut Vec<u8>)
        ensures
            final(out)@ == old(out)@ + self.wire_bytes(),
    {
        let ghost start = out@;
        put_u8(out, self.sa_next_payload);
        put_u8(out, self.reserved);
        put_u16(out, self.sa_length);
        put_u32(out, self.sa_doi);
        put_u32(out, self.sa_situation);
        assert(out@ =~= start + self.wire_bytes());
    }
}

/// The proposal payload header (RFC 2408, 3.5).
#[derive(Debug, Clone, Copy, PartialEq, Eq, Structural)]
pub struct ProposalPayload {
    /// Type of the payload after this one.
    pub next_payload: u8,
    /// Reserved; always zero.
    pub reserved: u8,
    /// Length of the proposal, its transforms included.
    pub length: u16,
    /// Number of this proposal, starting at one.
    pub proposal: u8,
    /// Protocol id (1 for ISAKMP).
    pub protocol_id: u8,
    /// Size of the SPI; zero, no SPI is carried.
    pub spi_size: u8,
    /// Number of transforms that follow.
    pub number_of_transforms: u8,
}

impl ProposalPayload {
    pub open spec fn wire_bytes(&self) -> Seq<u8> {
        seq![self.next_payload, self.reserved] + be16(self.length) + seq![
            self.proposal,
            self.protocol_id,
            self.spi_size,
            self.number_of_transforms,
        ]
    }

    /// Appends the 8 bytes of the proposal header.
    pub fn append_bytes(&self, out: &mut Vec<u8>)
        ensures
            final(out)@ == old(out)@ + self.wire_bytes(),
    {
        let ghost start = out@;
        put_u8(out, self.next_payload);
        put_u8(out, self.reserved);
        put_u16(out, self.length);
        put_u8(out, self.proposal);
        put_u8(out, self.protocol_id);
        put_u8(out, self.spi_size);
        put_u8(out, self.number_of_transforms);
        assert(out@ =~= start + self.wire_bytes());
    }
}

/// The transform payload header (RFC 2408, 3.6).
#[derive(Debug, Clone, Copy, PartialEq, Eq, Structural)]
pub struct TransformPayload {
    /// 3 when another transform follows, 0 after the last one.
    pub next_payload: u8,
    /// Reserved; always zero.
    pub reserved: u8,
    /// Length of the transform, its attributes included.
    pub length: u16,
    /// Number of this transform, starting at one.
    pub transform_number: u8,
    /// Transform id (1 for KEY_IKE).
    pub transform_id: u8,
    /// Second reserved field; always zero.
    pub reserved2: u16,
}

impl TransformPayload {
    pub open spec fn wire_bytes(&self) -> Seq<u8> {
        seq![self.next_payload, self.reserved] + be16(self.length) + seq![
            self.transform_number,
            self.transform_id,
        ] + be16(self.reserved2)
    }

    /// Appends the 8 bytes of the transform header.
    pub fn append_bytes(&self, out: &mut Vec<u8>)
        ensures
            final(out)@ == old(out)@ + self.wire_bytes(),
    {
        let ghost start = out@;
        put_u8(out, self.next_payload);
        put_u8(out, self.reserved);
        put_u16(out, self.length);
        put_u8(out, self.transform_number);
        put_u8(out, self.transform_id);
        put_u16(out, self.reserved2);
        assert(out@ =~= start + self.wire_bytes());
    }
}

/// A data attribute: a type and, with the type's top bit set, the value itself.
#[derive(Debug, Clone, Copy, PartialEq, Eq, Structural)]
pub struct Attribute {
    /// Attribute type; the top bit marks an inline value.
    pub attribute_type: u16,
    /// The value when the top bit of the type is set, else the value's length.
    pub attribute_value_or_length: u16,
}

impl Attribute {
    pub open spec fn wire_bytes(&self) -> Seq<u8> {
        be16(self.attribute_type) + be16(self.attribute_value_or_length)
    }

    /// Appends the 4 bytes of the attribute.
    pub fn append_bytes(&self, out: &mut Vec<u8>)
        ensures
            final(out)@ == old(out)@ + self.wire_bytes(),
    {
        let ghost start = out@;
        put_u16(out, self.attribute_type);
        put_u16(out, self.attribute_value_or_length);
        assert(out@ =~= start + self.wire_bytes());
    }
}

/// One transform with its six fixed attributes and the life-duration value.
#[derive(Debug, Clone, Copy, PartialEq, Eq, Structural)]
pub struct Transform {
    /// Transform header.
    pub transform_payload: TransformPayload,
    /// Encryption algorithm.
    pub encryption_attribute: Attribute,
    /// Hash algorithm.
    pub hash_attribute: Attribute,
    /// Diffie-Hellman group.
    pub diffie_hellman_attribute: Attribute,
    /// Authentication method.
    pub authentication_method_attribute: Attribute,
    /// Unit of the lifetime.
    pub life_type_attribute: Attribute,
    /// Lifetime; its length-bearing form announces the 4-byte value below.
    pub life_duration_attribute: Attribute,
    /// Lifetime value.
    pub life_duration_value: u32,
}

impl Transform {
    pub open spec fn wire_bytes(&self) -> Seq<u8> {
        self.transform_payload.wire_bytes() + self.encryption_attribute.wire_bytes()
            + self.hash_attribute.wire_bytes() + self.diffie_hellman_attribute.wire_bytes()
            + self.authentication_method_attribute.wire_bytes()
            + self.life_type_attribute.wire_bytes() + self.life_duration_attribute.wire_bytes()
            + be32(self.life_duration_value)
    }

    /// Appends the 36 bytes of the transform.
    pub fn append_bytes(&self, out: &mut Vec<u8>)
        ensures
            final(out)@ == old(out)@ + self.wire_bytes(),
    {
        let ghost start = out@;
        self.transform_payload.append_bytes(out);
        self.encryption_attribute.append_bytes(out);
        self.hash_attribute.append_bytes(out);
        self.diffie_hellman_attribute.append_bytes(out);
        self.authentication_method_attribute.append_bytes(out);
        self.life_type_attribute.append_bytes(out);
        self.life_duration_attribute.append_bytes(out);
        put_u32(out, self.life_duration_value);
        assert(out@ =~= start + self.wire_bytes());
    }
}


// ---------------------------------------------------------------- code tables

/// Payload type codes of IKEv1.
#[derive(Debug, Clone, Copy, PartialEq, Eq, Structural)]
pub enum PayloadTypeV1 {
    /// No payload follows.
    NoNextPayload,
    SecurityAssociation,
    Proposal,
    Transform,
    KeyExchange,
    Identification,
    Certificate,
    CertificateRequest,
    Hash,
    Signature,
    Nonce,
    Notification,
    VendorID,
}

impl PayloadTypeV1 {
    /// Wire code of each entry.
    pub open spec fn code(self) -> u8 {
        match self {
            PayloadTypeV1::NoNextPayload => 0,
            PayloadTypeV1::SecurityAssociation => 1,
            PayloadTypeV1::Proposal => 2,
            PayloadTypeV1::Transform => 3,
            PayloadTypeV1::KeyExchange => 4,
            PayloadTypeV1::Identification => 5,
            PayloadTypeV1::Certificate => 6,
            PayloadTypeV1::CertificateRequest => 7,
            PayloadTypeV1::Hash => 8,
            PayloadTypeV1::Signature => 9,
            PayloadTypeV1::Nonce => 10,
            PayloadTypeV1::Notification => 11,
            PayloadTypeV1::VendorID => 13,
        }
    }

    /// Entry of a wire code; `None` for a code that has no entry.
    pub open spec fn decode(value: u8) -> Option<Self> {
        match value {
            0 => Some(PayloadTypeV1::NoNextPayload),
            1 => Some(PayloadTypeV1::SecurityAssociation),
            2 => Some(PayloadTypeV1::Proposal),
            3 => Some(PayloadTypeV1::Transform),
            4 => Some(PayloadTypeV1::KeyExchange),
            5 => Some(PayloadTypeV1::Identification),
            6 => Some(PayloadTypeV1::Certificate),
            7 => Some(PayloadTypeV1::CertificateRequest),
            8 => Some(PayloadTypeV1::Hash),
            9 => Some(PayloadTypeV1::Signature),
            10 => Some(PayloadTypeV1::Nonce),
            11 => Some(PayloadTypeV1::Notification),
            13 => Some(PayloadTypeV1::VendorID),
            _ => None,
        }
    }

    pub fn try_from_u8(value: u8) -> (r: Option<Self>)
        ensures
            r == Self::decode(value),
    {
        match value {
            0 => Some(PayloadTypeV1::NoNextPayload),
            1 => Some(PayloadTypeV1::SecurityAssociation),
            2 => Some(PayloadTypeV1::Proposal),
            3 => Some(PayloadTypeV1::Transform),
            4 => Some(PayloadTypeV1::KeyExchange),
            5 => Some(PayloadTypeV1::Identification),
            6 => Some(PayloadTypeV1::Certificate),
            7 => Some(PayloadTypeV1::CertificateRequest),
            8 => Some(PayloadTypeV1::Hash),
            9 => Some(PayloadTypeV1::Signature),
            10 => Some(PayloadTypeV1::Nonce),
            11 => Some(PayloadTypeV1::Notification),
            13 => Some(PayloadTypeV1::VendorID),
            _ => None,
        }
    }

    /// Decoding the code of an entry gives the entry back, and a code
    /// decodes only to the entry that has it.
    pub proof fn lemma_round_trip(self, value: u8)
        ensures
            Self::decode(self.code()) == Some(self),
            Self::decode(value) matches Some(t) ==> t.code() == value,
    {
    }
}

impl From<PayloadTypeV1> for u8 {
    fn from(value: PayloadTypeV1) -> u8 {
        match value {
            PayloadTypeV1::NoNextPayload => 0,
            PayloadTypeV1::SecurityAssociation => 1,
            PayloadTypeV1::Proposal => 2,
            PayloadTypeV1::Transform => 3,
            PayloadTypeV1::KeyExchange => 4,
            PayloadTypeV1::Identification => 5,
            PayloadTypeV1::Certificate => 6,
            PayloadTypeV1::CertificateRequest => 7,
            PayloadTypeV1::Hash => 8,
            PayloadTypeV1::Signature => 9,
            PayloadTypeV1::Nonce => 10,
            PayloadTypeV1::Notification => 11,
            PayloadTypeV1::VendorID => 13,
        }
    }
}

impl vstd::std_specs::convert::FromSpecImpl<PayloadTypeV1> for u8 {
    open spec fn obeys_from_spec() -> bool {
        true
    }

    open spec fn from_spec(v: PayloadTypeV1) -> u8 {
        v.code()
    }
}

/// Exchange types of IKEv1.
#[derive(Debug, Clone, Copy, PartialEq, Eq, Structural)]
pub enum ExchangeType {
    /// Main mode.
    IdentityProtect,
    /// Aggressive mode.
    AggressiveExchange,
    Informational,
    /// Phase two.
    QuickMode,
    NewGroupMode,
}

impl ExchangeType {
    /// Wire code of each entry.
    pub open spec fn code(self) -> u8 {
        match self {
            ExchangeType::IdentityProtect => 2,
            ExchangeType::AggressiveExchange => 4,
            ExchangeType::Informational => 5,
            ExchangeType::QuickMode => 32,
            ExchangeType::NewGroupMode => 33,
        }
    }

    /// Entry of a wire code; `None` for a code that has no entry.
    pub open spec fn decode(value: u8) -> Option<Self> {
        match value {
            2 => Some(ExchangeType::IdentityProtect),
            4 => Some(ExchangeType::AggressiveExchange),
            5 => Some(ExchangeType::Informational),
            32 => Some(ExchangeType::QuickMode),
            33 => Some(ExchangeType::NewGroupMode),
            _ => None,
        }
    }

    pub fn try_from_u8(value: u8) -> (r: Option<Self>)
        ensures
            r == Self::decode(value),
    {
        match value {
            2 => Some(ExchangeType::IdentityProtect),
            4 => Some(ExchangeType::AggressiveExchange),
            5 => Some(ExchangeType::Informational),
            32 => Some(ExchangeType::QuickMode),
            33 => Some(ExchangeType::NewGroupMode),
            _ => None,
        }
    }

    /// Decoding the code of an entry gives the entry back, and a code
    /// decodes only to the entry that has it.
    pub proof fn lemma_round_trip(self, value: u8)
        ensures
            Self::decode(self.code()) == Some(self),
            Self::decode(value) matches Some(t) ==> t.code() == value,
    {
    }
}

impl From<ExchangeType> for u8 {
    fn from(value: ExchangeType) -> u8 {
        match value {
            ExchangeType::IdentityProtect => 2,
            ExchangeType::AggressiveExchange => 4,
            ExchangeType::Informational => 5,
            ExchangeType::QuickMode => 32,
            ExchangeType::NewGroupMode => 33,
        }
    }
}

impl vstd::std_specs::convert::FromSpecImpl<ExchangeType> for u8 {
    open spec fn obeys_from_spec() -> bool {
        true
    }

    open spec fn from_spec(v: ExchangeType) -> u8 {
        v.code()
    }
}

/// Encryption algorithms of IKEv1 (IANA).
#[derive(Debug, Clone, Copy, PartialEq, Eq, Structural)]
pub enum EncryptionAlgorithmV1 {
    DES,
    IDEA,
    Blowfish,
    Rc5,
    TrippleDES,
    Cast,
    AesCbc,
    Camellia,
}

impl EncryptionAlgorithmV1 {
    /// Wire code of each entry.
    pub open spec fn code(self) -> u16 {
        match self {
            EncryptionAlgorithmV1::DES => 1,
            EncryptionAlgorithmV1::IDEA => 2,
            EncryptionAlgorithmV1::Blowfish => 3,
            EncryptionAlgorithmV1::Rc5 => 4,
            EncryptionAlgorithmV1::TrippleDES => 5,
            EncryptionAlgorithmV1::Cast => 6,
            EncryptionAlgorithmV1::AesCbc => 7,
            EncryptionAlgorithmV1::Camellia => 8,
        }
    }

    /// Entry of a wire code; `None` for a code that has no entry.
    pub open spec fn decode(value: u8) -> Option<Self> {
        match value {
            1 => Some(EncryptionAlgorithmV1::DES),
            2 => Some(EncryptionAlgorithmV1::IDEA),
            3 => Some(EncryptionAlgorithmV1::Blowfish),
            4 => Some(EncryptionAlgorithmV1::Rc5),
            5 => Some(EncryptionAlgorithmV1::TrippleDES),
            6 => Some(EncryptionAlgorithmV1::Cast),
            7 => Some(EncryptionAlgorithmV1::AesCbc),
            8 => Some(EncryptionAlgorithmV1::Camellia),
            _ => None,
        }
    }

    pub fn try_from_u8(value: u8) -> (r: Option<Self>)
        ensures
            r == Self::decode(value),
    {
        match value {
            1 => Some(EncryptionAlgorithmV1::DES),
            2 => Some(EncryptionAlgorithmV1::IDEA),
            3 => Some(EncryptionAlgorithmV1::Blowfish),
            4 => Some(EncryptionAlgorithmV1::Rc5),
            5 => Some(EncryptionAlgorithmV1::TrippleDES),
            6 => Some(EncryptionAlgorithmV1::Cast),
            7 => Some(EncryptionAlgorithmV1::AesCbc),
            8 => Some(EncryptionAlgorithmV1::Camellia),
            _ => None,
        }
    }

    /// Decoding the code of an entry gives the entry back, and a code
    /// decodes only to the entry that has it.
    pub proof fn lemma_round_trip(self, value: u8)
        ensures
            Self::decode(self.code() as u8) == Some(self),
            Self::decode(value) matches Some(t) ==> t.code() == value,
    {
    }
}

impl From<EncryptionAlgorithmV1> for u16 {
    fn from(value: EncryptionAlgorithmV1) -> u16 {
        match value {
            EncryptionAlgorithmV1::DES => 1,
            EncryptionAlgorithmV1::IDEA => 2,
            EncryptionAlgorithmV1::Blowfish => 3,
            EncryptionAlgorithmV1::Rc5 => 4,
            EncryptionAlgorithmV1::TrippleDES => 5,
            EncryptionAlgorithmV1::Cast => 6,
            EncryptionAlgorithmV1::AesCbc => 7,
            EncryptionAlgorithmV1::Camellia => 8,
        }
    }
}

impl vstd::std_specs::convert::FromSpecImpl<EncryptionAlgorithmV1> for u16 {
    open spec fn obeys_from_spec() -> bool {
        true
    }

    open spec fn from_spec(v: EncryptionAlgorithmV1) -> u16 {
        v.code()
    }
}

/// Hash algorithms of IKEv1 (IANA).
#[derive(Debug, Clone, Copy, PartialEq, Eq, Structural)]
pub enum HashType {
    MD5,
    SHA1,
    TIGER,
    AES128XCDC,
    SHA2_256,
    SHA2_384,
    SHA2_512,
    AES128CMAC,
    STREEBOG512,
}

impl HashType {
    /// Wire code of each entry.
    pub open spec fn code(self) -> u16 {
        match self {
            HashType::MD5 => 1,
            HashType::SHA1 => 2,
            HashType::TIGER => 3,
            HashType::AES128XCDC => 4,
            HashType::SHA2_256 => 5,
            HashType::SHA2_384 => 6,
            HashType::SHA2_512 => 7,
            HashType::AES128CMAC => 8,
            HashType::STREEBOG512 => 9,
        }
    }

    /// Entry of a wire code; `None` for a code that has no entry.
    pub open spec fn decode(value: u8) -> Option<Self> {
        match value {
            1 => Some(HashType::MD5),
            2 => Some(HashType::SHA1),
            3 => Some(HashType::TIGER),
            4 => Some(HashType::AES128XCDC),
            5 => Some(HashType::SHA2_256),
            6 => Some(HashType::SHA2_384),
            7 => Some(HashType::SHA2_512),
            8 => Some(HashType::AES128CMAC),
            9 => Some(HashType::STREEBOG512),
            _ => None,
        }
    }

    pub fn try_from_u8(value: u8) -> (r: Option<Self>)
        ensures
            r == Self::decode(value),
    {
        match value {
            1 => Some(HashType::MD5),
            2 => Some(HashType::SHA1),
            3 => Some(HashType::TIGER),
            4 => Some(HashType::AES128XCDC),
            5 => Some(HashType::SHA2_256),
            6 => Some(HashType::SHA2_384),
            7 => Some(HashType::SHA2_512),
            8 => Some(HashType::AES128CMAC),
            9 => Some(HashType::STREEBOG512),
            _ => None,
        }
    }

    /// Decoding the code of an entry gives the entry back, and a code
    /// decodes only to the entry that has it.
    pub proof fn lemma_round_trip(self, value: u8)
        ensures
            Self::decode(self.code() as u8) == Some(self),
            Self::decode(value) matches Some(t) ==> t.code() == value,
    {
    }
}

impl From<HashType> for u16 {
    fn from(value: HashType) -> u16 {
        match value {
            HashType::MD5 => 1,
            HashType::SHA1 => 2,
            HashType::TIGER => 3,
            HashType::AES128XCDC => 4,
            HashType::SHA2_256 => 5,
            HashType::SHA2_384 => 6,
            HashType::SHA2_512 => 7,
            HashType::AES128CMAC => 8,
            HashType::STREEBOG512 => 9,
        }
    }
}

impl vstd::std_specs::convert::FromSpecImpl<HashType> for u16 {
    open spec fn obeys_from_spec() -> bool {
        true
    }

    open spec fn from_spec(v: HashType) -> u16 {
        v.code()
    }
}

/// Authentication methods of IKEv1.
#[derive(Debug, Clone, Copy, PartialEq, Eq, Structural)]
pub enum AuthenticationMethod {
    PreSharedKey,
    DssSignatures,
    RsaSignatures,
    EncryptionWithRsa,
    RevisedEncryptionWithRsa,
}

impl AuthenticationMethod {
    /// Wire code of each entry.
    pub open spec fn code(self) -> u16 {
        match self {
            AuthenticationMethod::PreSharedKey => 1,
            AuthenticationMethod::DssSignatures => 2,
            AuthenticationMethod::RsaSignatures => 3,
            AuthenticationMethod::EncryptionWithRsa => 4,
            AuthenticationMethod::RevisedEncryptionWithRsa => 5,
        }
    }

    /// Entry of a wire code; `None` for a code that has no entry.
    pub open spec fn decode(value: u8) -> Option<Self> {
        match value {
            1 => Some(AuthenticationMethod::PreSharedKey),
            2 => Some(AuthenticationMethod::DssSignatures),
            3 => Some(AuthenticationMethod::RsaSignatures),
            4 => Some(AuthenticationMethod::EncryptionWithRsa),
            5 => Some(AuthenticationMethod::RevisedEncryptionWithRsa),
            _ => None,
        }
    }

    pub fn try_from_u8(value: u8) -> (r: Option<Self>)
        ensures
            r == Self::decode(value),
    {
        match value {
            1 => Some(AuthenticationMethod::PreSharedKey),
            2 => Some(AuthenticationMethod::DssSignatures),
            3 => Some(AuthenticationMethod::RsaSignatures),
            4 => Some(AuthenticationMethod::EncryptionWithRsa),
            5 => Some(AuthenticationMethod::RevisedEncryptionWithRsa),
            _ => None,
        }
    }

    /// Decoding the code of an entry gives the entry back, and a code
    /// decodes only to the entry that has it.
    pub proof fn lemma_round_trip(self, value: u8)
        ensures
            Self::decode(self.code() as u8) == Some(self),
            Self::decode(value) matches Some(t) ==> t.code() == value,
    {
    }
}

impl From<AuthenticationMethod> for u16 {
    fn from(value: AuthenticationMethod) -> u16 {
        match value {
            AuthenticationMethod::PreSharedKey => 1,
            AuthenticationMethod::DssSignatures => 2,
            AuthenticationMethod::RsaSignatures => 3,
            AuthenticationMethod::EncryptionWithRsa => 4,
            AuthenticationMethod::RevisedEncryptionWithRsa => 5,
        }
    }
}

impl vstd::std_specs::convert::FromSpecImpl<AuthenticationMethod> for u16 {
    open spec fn obeys_from_spec() -> bool {
        true
    }

    open spec fn from_spec(v: AuthenticationMethod) -> u16 {
        v.code()
    }
}

/// Diffie-Hellman groups (IANA), with the registry's gaps.
#[derive(Debug, Clone, Copy, PartialEq, Eq, Structural)]
pub enum DhGroup {
    MODP768bit,
    MODP1024bit,
    EC2N155,
    EC2N185,
    MODP1536bit,
    EC2N163Random,
    EC2N163Koblitz,
    EC2N283Random,
    EC2N283Koblitz,
    EC2N409Random,
    EC2N409Koblitz,
    EC2N571Random,
    EC2N571Koblitz,
    MODP2048bit,
    MODP3071bit,
    MODP4096bit,
    MODP6144bit,
    MODP8192bit,
    RandomECPGroup256bit,
    RandomECPGroup384bit,
    RandomECPGroup521bit,
    MODP2048With256bitPrimeOrder,
    BrainpoolP256r1,
    BrainpoolP384r1,
    BrainpoolP512r1,
    Curve25519,
    Curve448,
    GOST3410_2012_256,
    GOST3410_2012_512,
}

impl DhGroup {
    /// Wire code of each entry.
    pub open spec fn code(self) -> u16 {
        match self {
            DhGroup::MODP768bit => 1,
            DhGroup::MODP1024bit => 2,
            DhGroup::EC2N155 => 3,
            DhGroup::EC2N185 => 4,
            DhGroup::MODP1536bit => 5,
            DhGroup::EC2N163Random => 6,
            DhGroup::EC2N163Koblitz => 7,
            DhGroup::EC2N283Random => 8,
            DhGroup::EC2N283Koblitz => 9,
            DhGroup::EC2N409Random => 10,
            DhGroup::EC2N409Koblitz => 11,
            DhGroup::EC2N571Random => 12,
            DhGroup::EC2N571Koblitz => 13,
            DhGroup::MODP2048bit => 14,
            DhGroup::MODP3071bit => 15,
            DhGroup::MODP4096bit => 16,
            DhGroup::MODP6144bit => 17,
            DhGroup::MODP8192bit => 18,
            DhGroup::RandomECPGroup256bit => 19,
            DhGroup::RandomECPGroup384bit => 20,
            DhGroup::RandomECPGroup521bit => 21,
            DhGroup::MODP2048With256bitPrimeOrder => 24,
            DhGroup::BrainpoolP256r1 => 28,
            DhGroup::BrainpoolP384r1 => 29,
            DhGroup::BrainpoolP512r1 => 30,
            DhGroup::Curve25519 => 31,
            DhGroup::Curve448 => 32,
            DhGroup::GOST3410_2012_256 => 33,
            DhGroup::GOST3410_2012_512 => 34,
        }
    }

    /// Entry of a wire code; `None` for a code that has no entry.
    pub open spec fn decode(value: u8) -> Option<Self> {
        match value {
            1 => Some(DhGroup::MODP768bit),
            2 => Some(DhGroup::MODP1024bit),
            3 => Some(DhGroup::EC2N155),
            4 => Some(DhGroup::EC2N185),
            5 => Some(DhGroup::MODP1536bit),
            6 => Some(DhGroup::EC2N163Random),
            7 => Some(DhGroup::EC2N163Koblitz),
            8 => Some(DhGroup::EC2N283Random),
            9 => Some(DhGroup::EC2N283Koblitz),
            10 => Some(DhGroup::EC2N409Random),
            11 => Some(DhGroup::EC2N409Koblitz),
            12 => Some(DhGroup::EC2N571Random),
            13 => Some(DhGroup::EC2N571Koblitz),
            14 => Some(DhGroup::MODP2048bit),
            15 => Some(DhGroup::MODP3071bit),
            16 => Some(DhGroup::MODP4096bit),
            17 => Some(DhGroup::MODP6144bit),
            18 => Some(DhGroup::MODP8192bit),
            19 => Some(DhGroup::RandomECPGroup256bit),
            20 => Some(DhGroup::RandomECPGroup384bit),
            21 => Some(DhGroup::RandomECPGroup521bit),
            24 => Some(DhGroup::MODP2048With256bitPrimeOrder),
            28 => Some(DhGroup::BrainpoolP256r1),
            29 => Some(DhGroup::BrainpoolP384r1),
            30 => Some(DhGroup::BrainpoolP512r1),
            31 => Some(DhGroup::Curve25519),
            32 => Some(DhGroup::Curve448),
            33 => Some(DhGroup::GOST3410_2012_256),
            34 => Some(DhGroup::GOST3410_2012_512),
            _ => None,
        }
    }

    pub fn try_from_u8(value: u8) -> (r: Option<Self>)
        ensures
            r == Self::decode(value),
    {
        match value {
            1 => Some(DhGroup::MODP768bit),
            2 => Some(DhGroup::MODP1024bit),
            3 => Some(DhGroup::EC2N155),
            4 => Some(DhGroup::EC2N185),
            5 => Some(DhGroup::MODP1536bit),
            6 => Some(DhGroup::EC2N163Random),
            7 => Some(DhGroup::EC2N163Koblitz),
            8 => Some(DhGroup::EC2N283Random),
            9 => Some(DhGroup::EC2N283Koblitz),
            10 => Some(DhGroup::EC2N409Random),
            11 => Some(DhGroup::EC2N409Koblitz),
            12 => Some(DhGroup::EC2N571Random),
            13 => Some(DhGroup::EC2N571Koblitz),
            14 => Some(DhGroup::MODP2048bit),
            15 => Some(DhGroup::MODP3071bit),
            16 => Some(DhGroup::MODP4096bit),
            17 => Some(DhGroup::MODP6144bit),
            18 => Some(DhGroup::MODP8192bit),
            19 => Some(DhGroup::RandomECPGroup256bit),
            20 => Some(DhGroup::RandomECPGroup384bit),
            21 => Some(DhGroup::RandomECPGroup521bit),
            24 => Some(DhGroup::MODP2048With256bitPrimeOrder),
            28 => Some(DhGroup::BrainpoolP256r1),
            29 => Some(DhGroup::BrainpoolP384r1),
            30 => Some(DhGroup::BrainpoolP512r1),
            31 => Some(DhGroup::Curve25519),
            32 => Some(DhGroup::Curve448),
            33 => Some(DhGroup::GOST3410_2012_256),
            34 => Some(DhGroup::GOST3410_2012_512),
            _ => None,
        }
    }

    /// Decoding the code of an entry gives the entry back, and a code
    /// decodes only to the entry that has it.
    pub proof fn lemma_round_trip(self, value: u8)
        ensures
            Self::decode(self.code() as u8) == Some(self),
            Self::decode(value) matches Some(t) ==> t.code() == value,
    {
    }

    /// A code decodes to a group exactly when it is registered: 1 to 21, 24
    /// and 28 to 34.
    pub proof fn lemma_registered(value: u8)
        ensures
            Self::decode(value) is Some <==> (1 <= value <= 21 || value == 24 || 28 <= value
                <= 34),
    {
    }
}

impl From<DhGroup> for u16 {
    fn from(value: DhGroup) -> u16 {
        match value {
            DhGroup::MODP768bit => 1,
            DhGroup::MODP1024bit => 2,
            DhGroup::EC2N155 => 3,
            DhGroup::EC2N185 => 4,
            DhGroup::MODP1536bit => 5,
            DhGroup::EC2N163Random => 6,
            DhGroup::EC2N163Koblitz => 7,
            DhGroup::EC2N283Random => 8,
            DhGroup::EC2N283Koblitz => 9,
            DhGroup::EC2N409Random => 10,
            DhGroup::EC2N409Koblitz => 11,
            DhGroup::EC2N571Random => 12,
            DhGroup::EC2N571Koblitz => 13,
            DhGroup::MODP2048bit => 14,
            DhGroup::MODP3071bit => 15,
            DhGroup::MODP4096bit => 16,
            DhGroup::MODP6144bit => 17,
            DhGroup::MODP8192bit => 18,
            DhGroup::RandomECPGroup256bit => 19,
            DhGroup::RandomECPGroup384bit => 20,
            DhGroup::RandomECPGroup521bit => 21,
            DhGroup::MODP2048With256bitPrimeOrder => 24,
            DhGroup::BrainpoolP256r1 => 28,
            DhGroup::BrainpoolP384r1 => 29,
            DhGroup::BrainpoolP512r1 => 30,
            DhGroup::Curve25519 => 31,
            DhGroup::Curve448 => 32,
            DhGroup::GOST3410_2012_256 => 33,
            DhGroup::GOST3410_2012_512 => 34,
        }
    }
}

impl vstd::std_specs::convert::FromSpecImpl<DhGroup> for u16 {
    open spec fn obeys_from_spec() -> bool {
        true
    }

    open spec fn from_spec(v: DhGroup) -> u16 {
        v.code()
    }
}

/// Situation bits of the IPsec domain of interpretation.
#[derive(Debug, Clone, Copy, PartialEq, Eq, Structural)]
pub enum SaSituation {
    IdentityOnly,
    Secrecy,
    Integrity,
}

impl SaSituation {
    /// Wire code of each entry.
    pub open spec fn code(self) -> u32 {
        match self {
            SaSituation::IdentityOnly => 1,
            SaSituation::Secrecy => 2,
            SaSituation::Integrity => 4,
        }
    }

    /// Entry of a wire code; `None` for a code that has no entry.
    pub open spec fn decode(value: u32) -> Option<Self> {
        match value {
            1 => Some(SaSituation::IdentityOnly),
            2 => Some(SaSituation::Secrecy),
            4 => Some(SaSituation::Integrity),
            _ => None,
        }
    }

    pub fn try_from_u32(value: u32) -> (r: Option<Self>)
        ensures
            r == Self::decode(value),
    {
        match value {
            1 => Some(SaSituation::IdentityOnly),
            2 => Some(SaSituation::Secrecy),
            4 => Some(SaSituation::Integrity),
            _ => None,
        }
    }

    /// Decoding the code of an entry gives the entry back, and a code
    /// decodes only to the entry that has it.
    pub proof fn lemma_round_trip(self, value: u32)
        ensures
            Self::decode(self.code()) == Some(self),
            Self::decode(value) matches Some(t) ==> t.code() == value,
    {
    }
}

impl From<SaSituation> for u32 {
    fn from(value: SaSituation) -> u32 {
        match value {
            SaSituation::IdentityOnly => 1,
            SaSituation::Secrecy => 2,
            SaSituation::Integrity => 4,
        }
    }
}

impl vstd::std_specs::convert::FromSpecImpl<SaSituation> for u32 {
    open spec fn obeys_from_spec() -> bool {
        true
    }

    open spec fn from_spec(v: SaSituation) -> u32 {
        v.code()
    }
}

/// Attribute types of a transform. The top bit of a code is set where the
/// value travels inline; the life duration announces a length instead.
#[derive(Debug, Clone, Copy, PartialEq, Eq, Structural)]
pub enum AttributeType {
    Encryption,
    HashType,
    AuthenticationMethod,
    DiffieHellmanGroup,
    LifeType,
    LifeDuration,
}

impl AttributeType {
    /// Wire code of each entry.
    pub open spec fn code(self) -> u16 {
        match self {
            AttributeType::Encryption => 0x8001,
            AttributeType::HashType => 0x8002,
            AttributeType::AuthenticationMethod => 0x8003,
            AttributeType::DiffieHellmanGroup => 0x8004,
            AttributeType::LifeType => 0x800b,
            AttributeType::LifeDuration => 12,
        }
    }

}

impl From<AttributeType> for u16 {
    fn from(value: AttributeType) -> u16 {
        match value {
            AttributeType::Encryption => 0x8001,
            AttributeType::HashType => 0x8002,
            AttributeType::AuthenticationMethod => 0x8003,
            AttributeType::DiffieHellmanGroup => 0x8004,
            AttributeType::LifeType => 0x800b,
            AttributeType::LifeDuration => 12,
        }
    }
}

impl vstd::std_specs::convert::FromSpecImpl<AttributeType> for u16 {
    open spec fn obeys_from_spec() -> bool {
        true
    }

    open spec fn from_spec(v: AttributeType) -> u16 {
        v.code()
    }
}

impl AttributeType {
    /// Every attribute type carries its value inline, with the top bit of its
    /// code set, except the life duration, whose code announces a length.
    pub proof fn lemma_significant_bit(self)
        ensures
            (self.code() >= 0x8000) <==> (self != AttributeType::LifeDuration),
    {
    }
}

// ---------------------------------------------------------------- generation

/// Number of authentication methods probed: codes 1 to 5 and 9 to 11.
pub const AUTH_METHOD_COUNT: usize = 8;

/// Number of Diffie-Hellman groups probed: 1 to 21, 24 and 28 to 34.
pub const DH_GROUP_COUNT: usize = 29;

/// Number of hash types probed: 1 to 6.
pub const HASH_COUNT: usize = 6;

/// Number of encryption algorithms probed: 1 to 8.
pub const ENCRYPTION_COUNT: usize = 8;

/// Number of generated transforms, one per combination.
pub const V1_TRANSFORM_COUNT: usize = 11136;

/// The authentication method code at position `i` of the probed ranges.
pub open spec fn auth_method_at(i: int) -> u16 {
    if i < 5 {
        (i + 1) as u16
    } else {
        (i + 4) as u16
    }
}

/// The Diffie-Hellman group code at position `i` of the probed ranges.
pub open spec fn dh_group_at(i: int) -> u16 {
    if i < 21 {
        (i + 1) as u16
    } else if i == 21 {
        24
    } else {
        (i + 6) as u16
    }
}

/// The hash type code at position `i` of the probed range.
pub open spec fn hash_at(i: int) -> u16 {
    (i + 1) as u16
}

/// The encryption algorithm code at position `i` of the probed range.
pub open spec fn encryption_at(i: int) -> u16 {
    (i + 1) as u16
}

/// An attribute whose type comes from the table.
pub open spec fn attribute(t: AttributeType, value: u16) -> Attribute {
    Attribute { attribute_type: t.code(), attribute_value_or_length: value }
}

/// The transform proposing one combination, before normalization: it points
/// to a following transform and carries no number yet.
pub open spec fn v1_transform(auth: u16, group: u16, hash: u16, encryption: u16) -> Transform {
    Transform {
        transform_payload: TransformPayload {
            next_payload: PayloadTypeV1::Transform.code(),
            reserved: 0,
            length: TRANSFORM_LEN,
            transform_number: 0,
            transform_id: 1,
            reserved2: 0,
        },
        encryption_attribute: attribute(AttributeType::Encryption, encryption),
        hash_attribute: attribute(AttributeType::HashType, hash),
        diffie_hellman_attribute: attribute(AttributeType::DiffieHellmanGroup, group),
        authentication_method_attribute: attribute(AttributeType::AuthenticationMethod, auth),
        life_type_attribute: attribute(AttributeType::LifeType, 1),
        life_duration_attribute: attribute(AttributeType::LifeDuration, 4),
        life_duration_value: LIFE_DURATION_SECONDS,
    }
}

/// Position of a combination in the generated list: authentication method
/// outermost, then group, then hash, encryption innermost.
pub open spec fn v1_index(a: int, g: int, h: int, e: int) -> int {
    a * 1392 + g * 48 + h * 8 + e
}

/// The transform at position `i` of the generated list.
pub open spec fn v1_transform_at(i: int) -> Transform {
    v1_transform(
        auth_method_at(i / 1392),
        dh_group_at(i / 48 % 29),
        hash_at(i / 8 % 6),
        encryption_at(i % 8),
    )
}

#[verifier::spinoff_prover]
#[verifier::rlimit(60)]
proof fn lemma_v1_index_digits(a: int, g: int, h: int, e: int)
    requires
        0 <= a < 8,
        0 <= g < 29,
        0 <= h < 6,
        0 <= e < 8,
    ensures
        v1_index(a, g, h, e) / 1392 == a,
        v1_index(a, g, h, e) / 48 % 29 == g,
        v1_index(a, g, h, e) / 8 % 6 == h,
        v1_index(a, g, h, e) % 8 == e,
        0 <= v1_index(a, g, h, e) < 11136,
{
    let j = v1_index(a, g, h, e);
    vstd::arithmetic::div_mod::lemma_fundamental_div_mod_converse(j, 8, a * 174 + g * 6 + h, e);
    vstd::arithmetic::div_mod::lemma_fundamental_div_mod_converse(
        a * 174 + g * 6 + h,
        6,
        a * 29 + g,
        h,
    );
    vstd::arithmetic::div_mod::lemma_fundamental_div_mod_converse(j, 48, a * 29 + g, h * 8 + e);
    vstd::arithmetic::div_mod::lemma_fundamental_div_mod_converse(a * 29 + g, 29, a, g);
    vstd::arithmetic::div_mod::lemma_fundamental_div_mod_converse(
        j,
        1392,
        a,
        g * 48 + h * 8 + e,
    );
}

fn auth_method_code(i: usize) -> (r: u16)
    requires
        i < AUTH_METHOD_COUNT,
    ensures
        r == auth_method_at(i as int),
{
    if i < 5 {
        i as u16 + 1
    } else {
        i as u16 + 4
    }
}

fn dh_group_code(i: usize) -> (r: u16)
    requires
        i < DH_GROUP_COUNT,
    ensures
        r == dh_group_at(i as int),
{
    if i < 21 {
        i as u16 + 1
    } else if i == 21 {
        24
    } else {
        i as u16 + 6
    }
}

fn make_attribute(t: AttributeType, value: u16) -> (r: Attribute)
    ensures
        r == attribute(t, value),
{
    Attribute { attribute_type: u16::from(t), attribute_value_or_length: value }
}

fn make_v1_transform(auth: u16, group: u16, hash: u16, encryption: u16) -> (r: Transform)
    ensures
        r == v1_transform(auth, group, hash, encryption),
{
    Transform {
        transform_payload: TransformPayload {
            next_payload: u8::from(PayloadTypeV1::Transform),
            reserved: 0,
            length: TRANSFORM_LEN,
            transform_number: 0,
            transform_id: 1,
            reserved2: 0,
        },
        encryption_attribute: make_attribute(AttributeType::Encryption, encryption),
        hash_attribute: make_attribute(AttributeType::HashType, hash),
        diffie_hellman_attribute: make_attribute(AttributeType::DiffieHellmanGroup, group),
        authentication_method_attribute: make_attribute(AttributeType::AuthenticationMethod, auth),
        life_type_attribute: make_attribute(AttributeType::LifeType, 1),
        life_duration_attribute: make_attribute(AttributeType::LifeDuration, 4),
        life_duration_value: LIFE_DURATION_SECONDS,
    }
}

/// Every combination of the probed ranges, each exactly once.
#[verifier::spinoff_prover]
#[verifier::rlimit(60)]
pub proof fn lemma_v1_combinations_once(a: int, g: int, h: int, e: int, i: int, j: int)
    requires
        0 <= a < 8,
        0 <= g < 29,
        0 <= h < 6,
        0 <= e < 8,
        0 <= i < 11136,
        0 <= j < 11136,
    ensures
        0 <= v1_index(a, g, h, e) < 11136,
        v1_transform_at(v1_index(a, g, h, e)) == v1_transform(
            auth_method_at(a),
            dh_group_at(g),
            hash_at(h),
            encryption_at(e),
        ),
        v1_transform_at(i) == v1_transform_at(j) ==> i == j,
{
    lemma_v1_index_digits(a, g, h, e);
    if v1_transform_at(i) == v1_transform_at(j) {
        let (ai, gi, hi, ei) = (i / 1392, i / 48 % 29, i / 8 % 6, i % 8);
        let (aj, gj, hj, ej) = (j / 1392, j / 48 % 29, j / 8 % 6, j % 8);
        assert(ai == aj && gi == gj && hi == hj && ei == ej);
        lemma_v1_index_recompose(i);
        lemma_v1_index_recompose(j);
    }
}

#[verifier::spinoff_prover]
#[verifier::rlimit(60)]
proof fn lemma_v1_index_recompose(i: int)
    requires
        0 <= i < 11136,
    ensures
        i == v1_index(i / 1392, i / 48 % 29, i / 8 % 6, i % 8),
{
    vstd::arithmetic::div_mod::lemma_fundamental_div_mod(i, 8);
    vstd::arithmetic::div_mod::lemma_fundamental_div_mod(i / 8, 6);
    vstd::arithmetic::div_mod::lemma_fundamental_div_mod(i, 48);
    vstd::arithmetic::div_mod::lemma_fundamental_div_mod(i / 48, 29);
    vstd::arithmetic::div_mod::lemma_fundamental_div_mod(i, 1392);
    vstd::arithmetic::div_mod::lemma_div_denominator(i, 8, 6);
    vstd::arithmetic::div_mod::lemma_div_denominator(i, 48, 29);
    assert(i / 8 / 6 == i / 48);
    assert(i / 48 / 29 == i / 1392);
}


/// Every combination of the probed ranges, one transform each: authentication
/// method outermost, then Diffie-Hellman group, hash type, and encryption
/// algorithm innermost. Each transform points to a following one and carries
/// no number yet.
#[verifier::spinoff_prover]
#[verifier::rlimit(60)]
pub fn build_transforms() -> (r: Vec<Transform>)
    ensures
        r@.len() == V1_TRANSFORM_COUNT,
        forall|i: int| 0 <= i < r@.len() ==> r@[i] == v1_transform_at(i),
{
    let mut transforms: Vec<Transform> = Vec::new();
    let mut a: usize = 0;
    while a < AUTH_METHOD_COUNT
        invariant
            a <= AUTH_METHOD_COUNT,
            transforms@.len() == v1_index(a as int, 0, 0, 0),
            forall|i: int| 0 <= i < transforms@.len() ==> transforms@[i] == v1_transform_at(i),
        decreases AUTH_METHOD_COUNT - a,
    {
        let auth = auth_method_code(a);
        let mut g: usize = 0;
        while g < DH_GROUP_COUNT
            invariant
                a < AUTH_METHOD_COUNT,
                g <= DH_GROUP_COUNT,
                auth == auth_method_at(a as int),
                transforms@.len() == v1_index(a as int, g as int, 0, 0),
                forall|i: int|
                    0 <= i < transforms@.len() ==> transforms@[i] == v1_transform_at(i),
            decreases DH_GROUP_COUNT - g,
        {
            let group = dh_group_code(g);
            let mut h: usize = 0;
            while h < HASH_COUNT
                invariant
                    a < AUTH_METHOD_COUNT,
                    g < DH_GROUP_COUNT,
                    h <= HASH_COUNT,
                    auth == auth_method_at(a as int),
                    group == dh_group_at(g as int),
                    transforms@.len() == v1_index(a as int, g as int, h as int, 0),
                    forall|i: int|
                        0 <= i < transforms@.len() ==> transforms@[i] == v1_transform_at(i),
                decreases HASH_COUNT - h,
            {
                let hash = h as u16 + 1;
                let mut e: usize = 0;
                while e < ENCRYPTION_COUNT
                    invariant
                        a < AUTH_METHOD_COUNT,
                        g < DH_GROUP_COUNT,
                        h < HASH_COUNT,
                        e <= ENCRYPTION_COUNT,
                        auth == auth_method_at(a as int),
                        group == dh_group_at(g as int),
                        hash == hash_at(h as int),
                        transforms@.len() == v1_index(a as int, g as int, h as int, e as int),
                        forall|i: int|
                            0 <= i < transforms@.len() ==> transforms@[i] == v1_transform_at(i),
                    decreases ENCRYPTION_COUNT - e,
                {
                    let t = make_v1_transform(auth, group, hash, e as u16 + 1);
                    proof {
                        lemma_v1_index_digits(a as int, g as int, h as int, e as int);
                    }
                    transforms.push(t);
                    e = e + 1;
                }
                h = h + 1;
            }
            g = g + 1;
        }
        a = a + 1;
    }
    transforms
}

// ---------------------------------------------------------------- packet

/// The transform at position `i` of a chain of `n`, numbered from one and
/// pointing to a following transform unless it is the last.
pub open spec fn numbered(t: Transform, i: int, n: int) -> Transform {
    Transform {
        transform_payload: TransformPayload {
            next_payload: if i == n - 1 {
                PayloadTypeV1::NoNextPayload.code()
            } else {
                PayloadTypeV1::Transform.code()
            },
            transform_number: (i + 1) as u8,
            ..t.transform_payload
        },
        ..t
    }
}

/// A transform list as it stands in a proposal.
pub open spec fn normalized(s: Seq<Transform>) -> Seq<Transform> {
    Seq::new(s.len(), |i: int| numbered(s[i], i, s.len() as int))
}

/// The bytes of a transform list, one record after the other.
pub open spec fn transforms_bytes(s: Seq<Transform>) -> Seq<u8>
    decreases s.len(),
{
    if s.len() == 0 {
        seq![]
    } else {
        transforms_bytes(s.drop_last()) + s.last().wire_bytes()
    }
}

/// A whole IKEv1 packet: header, Security Association, one proposal and its
/// transforms.
#[derive(Debug, Clone)]
pub struct IkeV1 {
    /// The header.
    pub header: IkeV1Header,
    /// The Security Association payload header.
    pub security_association_payload: SecurityAssociationV1,
    /// The proposal header; at most 255 transforms follow it.
    pub proposal_payload: ProposalPayload,
    /// The transforms of the proposal.
    pub transform: Vec<Transform>,
}

impl IkeV1 {
    /// Every combination of the probed ranges, as [`build_transforms`] makes it.
    pub fn build_transforms() -> (r: Vec<Transform>)
        ensures
            r@.len() == V1_TRANSFORM_COUNT,
            forall|i: int| 0 <= i < r@.len() ==> r@[i] == v1_transform_at(i),
    {
        build_transforms()
    }

    /// The packet with its length fields computed from the transform count.
    pub open spec fn with_resolved_lengths(self) -> IkeV1 {
        let proposal_length = (PROPOSAL_HEADER_LEN + TRANSFORM_LEN
            * self.proposal_payload.number_of_transforms) as u16;
        let sa_length = (proposal_length + SA_HEADER_LEN) as u16;
        IkeV1 {
            header: IkeV1Header { length: (HEADER_LEN + sa_length) as u32, ..self.header },
            security_association_payload: SecurityAssociationV1 {
                sa_length,
                ..self.security_association_payload
            },
            proposal_payload: ProposalPayload { length: proposal_length, ..self.proposal_payload },
            transform: self.transform,
        }
    }

    /// The serialized packet.
    pub open spec fn wire_bytes(self) -> Seq<u8> {
        self.header.wire_bytes() + self.security_association_payload.wire_bytes()
            + self.proposal_payload.wire_bytes() + transforms_bytes(self.transform@)
    }

    /// Every reserved field is zero.
    pub open spec fn reserved_clear(self) -> bool {
        &&& self.security_association_payload.reserved == 0
        &&& self.proposal_payload.reserved == 0
        &&& forall|i: int|
            0 <= i < self.transform@.len() ==> {
                &&& (#[trigger] self.transform@[i]).transform_payload.reserved == 0
                &&& self.transform@[i].transform_payload.reserved2 == 0
            }
    }

    /// A first-message packet in main mode for the given initiator SPI, with
    /// no transforms yet and no lengths resolved.
    pub fn new(initiator_spi: u64) -> (r: IkeV1)
        ensures
            r.header == (IkeV1Header {
                initiator_spi,
                responder_spi: 0,
                next_payload: PayloadTypeV1::SecurityAssociation.code(),
                version: 0x10,
                exchange_type: ExchangeType::IdentityProtect.code(),
                flag: 0,
                message_id: 0,
                length: 0,
            }),
            r.security_association_payload == (SecurityAssociationV1 {
                sa_next_payload: PayloadTypeV1::NoNextPayload.code(),
                reserved: 0,
                sa_length: 0,
                sa_doi: 1,
                sa_situation: SaSituation::IdentityOnly.code(),
            }),
            r.proposal_payload == (ProposalPayload {
                next_payload: PayloadTypeV1::NoNextPayload.code(),
                reserved: 0,
                length: 0,
                proposal: 1,
                protocol_id: 1,
                spi_size: 0,
                number_of_transforms: 0,
            }),
            r.transform@.len() == 0,
    {
        IkeV1 {
            header: IkeV1Header {
                initiator_spi,
                responder_spi: 0,
                next_payload: u8::from(PayloadTypeV1::SecurityAssociation),
                version: 0x10,
                exchange_type: u8::from(ExchangeType::IdentityProtect),
                flag: 0,
                message_id: 0,
                length: 0,
            },
            security_association_payload: SecurityAssociationV1 {
                sa_next_payload: u8::from(PayloadTypeV1::NoNextPayload),
                reserved: 0,
                sa_length: 0,
                sa_doi: 1,
                sa_situation: u32::from(SaSituation::IdentityOnly),
            },
            proposal_payload: ProposalPayload {
                next_payload: u8::from(PayloadTypeV1::NoNextPayload),
                reserved: 0,
                length: 0,
                proposal: 1,
                protocol_id: 1,
                spi_size: 0,
                number_of_transforms: 0,
            },
            transform: Vec::new(),
        }
    }

    /// Attaches a transform list to the proposal: numbers it from one, lets
    /// each transform point to the next and marks the last one as the end of
    /// the chain. A list longer than 255 is refused and the packet left as it
    /// was.
    pub fn set_transforms(&mut self, transforms: &[Transform]) -> (r: Result<(), BuildError>)
        ensures
            r is Err <==> transforms@.len() > MAX_TRANSFORMS,
            r is Err ==> r == Err::<(), BuildError>(BuildError::TooManyTransforms),
            r is Err ==> *final(self) == *old(self),
            r is Ok ==> {
                &&& final(self).header == old(self).header
                &&& final(self).security_association_payload
                    == old(self).security_association_payload
                &&& final(self).proposal_payload == (ProposalPayload {
                    number_of_transforms: transforms@.len() as u8,
                    ..old(self).proposal_payload
                })
                &&& final(self).transform@ == normalized(transforms@)
            },
    {
        let n = transforms.len();
        if n > MAX_TRANSFORMS {
            return Err(BuildError::TooManyTransforms);
        }
        let mut chain: Vec<Transform> = Vec::new();
        let mut i: usize = 0;
        while i < n
            invariant
                n == transforms@.len(),
                n <= MAX_TRANSFORMS,
                i <= n,
                chain@ == normalized(transforms@).subrange(0, i as int),
            decreases n - i,
        {
            let mut t = transforms[i];
            t.transform_payload.transform_number = (i + 1) as u8;
            t.transform_payload.next_payload = if i == n - 1 {
                u8::from(PayloadTypeV1::NoNextPayload)
            } else {
                u8::from(PayloadTypeV1::Transform)
            };
            chain.push(t);
            i = i + 1;
            assert(chain@ =~= normalized(transforms@).subrange(0, i as int));
        }
        assert(chain@ =~= normalized(transforms@));
        self.proposal_payload.number_of_transforms = n as u8;
        self.transform = chain;
        Ok(())
    }

    /// Resolves the length fields bottom-up: the proposal from the transform
    /// count, the Security Association from the proposal, the packet from the
    /// Security Association.
    pub fn calculate_length(&mut self)
        ensures
            *final(self) == old(self).with_resolved_lengths(),
    {
        let proposal_length: u16 = PROPOSAL_HEADER_LEN + TRANSFORM_LEN
            * (self.proposal_payload.number_of_transforms as u16);
        self.proposal_payload.length = proposal_length;
        let sa_length: u16 = proposal_length + SA_HEADER_LEN;
        self.security_association_payload.sa_length = sa_length;
        self.header.length = HEADER_LEN as u32 + sa_length as u32;
    }

    /// The packet as bytes: header, Security Association, proposal, then the
    /// transforms in order.
    #[verifier::spinoff_prover]
    #[verifier::rlimit(40)]
    pub fn convert_to_bytes(&mut self) -> (r: Vec<u8>)
        ensures
            *final(self) == *old(self),
            r@ == old(self).wire_bytes(),
    {
        let mut out: Vec<u8> = Vec::new();
        self.header.append_bytes(&mut out);
        self.security_association_payload.append_bytes(&mut out);
        self.proposal_payload.append_bytes(&mut out);
        let ghost start = out@;
        let mut i: usize = 0;
        while i < self.transform.len()
            invariant
                i <= self.transform@.len(),
                out@ == start + transforms_bytes(self.transform@.subrange(0, i as int)),
            decreases self.transform@.len() - i,
        {
            let ghost before = out@;
            self.transform[i].append_bytes(&mut out);
            assert(self.transform@.subrange(0, i + 1).drop_last() =~= self.transform@.subrange(
                0,
                i as int,
            ));
            i = i + 1;
            assert(out@ =~= start + transforms_bytes(self.transform@.subrange(0, i as int)));
        }
        assert(self.transform@.subrange(0, i as int) =~= self.transform@);
        assert(out@ =~= self.wire_bytes());
        out
    }
}


// ---------------------------------------------------------------- laws

/// A normalized list of at most 255 transforms is numbered 1 to N in order,
/// and only its last transform ends the chain.
pub proof fn lemma_normalized_numbering(s: Seq<Transform>, i: int)
    requires
        s.len() <= MAX_TRANSFORMS,
        0 <= i < s.len(),
    ensures
        normalized(s).len() == s.len(),
        normalized(s)[i].transform_payload.transform_number == i + 1,
        normalized(s)[i].transform_payload.next_payload == PayloadTypeV1::NoNextPayload.code()
            <==> i == s.len() - 1,
        i < s.len() - 1 ==> normalized(s)[i].transform_payload.next_payload
            == PayloadTypeV1::Transform.code(),
{
}

/// Resolving the lengths a second time changes nothing.
pub proof fn lemma_resolution_idempotent(p: IkeV1)
    ensures
        p.with_resolved_lengths().with_resolved_lengths() == p.with_resolved_lengths(),
{
}

proof fn lemma_transforms_bytes_len(s: Seq<Transform>)
    ensures
        transforms_bytes(s).len() == TRANSFORM_LEN * s.len(),
    decreases s.len(),
{
    if s.len() > 0 {
        lemma_transforms_bytes_len(s.drop_last());
    }
}

#[verifier::spinoff_prover]
#[verifier::rlimit(60)]
proof fn lemma_transforms_bytes_at(s: Seq<Transform>, k: int, o: int)
    requires
        0 <= k < s.len(),
        0 <= o < TRANSFORM_LEN,
    ensures
        transforms_bytes(s)[TRANSFORM_LEN * k + o] == s[k].wire_bytes()[o],
    decreases s.len(),
{
    lemma_transforms_bytes_len(s.drop_last());
    if k < s.len() - 1 {
        lemma_transforms_bytes_at(s.drop_last(), k, o);
    }
}

/// Once its transform count is attached and its lengths resolved, a packet
/// declares in its header exactly the number of bytes it serializes to.
pub proof fn lemma_declared_length(p: IkeV1)
    requires
        p.transform@.len() == p.proposal_payload.number_of_transforms,
    ensures
        p.with_resolved_lengths().wire_bytes().len() == p.with_resolved_lengths().header.length,
{
    lemma_transforms_bytes_len(p.transform@);
}

/// In the bytes of a packet whose reserved fields are clear, the reserved
/// byte of the Security Association and of the proposal, and the reserved
/// bytes of each transform, are zero.
#[verifier::spinoff_prover]
#[verifier::rlimit(60)]
pub proof fn lemma_reserved_bytes_zero(p: IkeV1, k: int)
    requires
        p.reserved_clear(),
        0 <= k < p.transform@.len(),
    ensures
        p.wire_bytes()[29] == 0,
        p.wire_bytes()[41] == 0,
        p.wire_bytes()[48 + TRANSFORM_LEN * k + 1] == 0,
        p.wire_bytes()[48 + TRANSFORM_LEN * k + 6] == 0,
        p.wire_bytes()[48 + TRANSFORM_LEN * k + 7] == 0,
{
    let t = p.transform@[k];
    let h = p.header.wire_bytes();
    let sa = p.security_association_payload.wire_bytes();
    let pr = p.proposal_payload.wire_bytes();
    let tb = transforms_bytes(p.transform@);
    let b = p.wire_bytes();
    assert(h.len() == 28 && sa.len() == 12 && pr.len() == 8);
    assert(sa[1] == 0 && pr[1] == 0);
    assert(b == h + sa + pr + tb);
    assert(b[29] == sa[1]);
    assert(b[41] == pr[1]);
    let tw = t.wire_bytes();
    assert(tw[1] == 0 && tw[6] == 0 && tw[7] == 0);
    lemma_transforms_bytes_at(p.transform@, k, 1);
    lemma_transforms_bytes_at(p.transform@, k, 6);
    lemma_transforms_bytes_at(p.transform@, k, 7);
    lemma_transforms_bytes_len(p.transform@);
    assert(b[48 + TRANSFORM_LEN * k + 1] == tb[TRANSFORM_LEN * k + 1]);
    assert(b[48 + TRANSFORM_LEN * k + 6] == tb[TRANSFORM_LEN * k + 6]);
    assert(b[48 + TRANSFORM_LEN * k + 7] == tb[TRANSFORM_LEN * k + 7]);
}

} // verus!
