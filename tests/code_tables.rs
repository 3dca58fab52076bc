use bike_scan::ike::{
    AuthenticationMethod, DhGroup, EncryptionAlgorithmV1, ExchangeType, HashType, PayloadTypeV1,
    SaSituation,
};
use bike_scan::ikev2::{
    AttributeValue, ExchangeTypeV2, PayloadTypeV2, ProtocolId, TransformTypeValues,
};

#[test]
fn payload_type_v1_round_trip() {
    let all = [
        PayloadTypeV1::NoNextPayload,
        PayloadTypeV1::SecurityAssociation,
        PayloadTypeV1::Proposal,
        PayloadTypeV1::Transform,
        PayloadTypeV1::KeyExchange,
        PayloadTypeV1::Identification,
        PayloadTypeV1::Certificate,
        PayloadTypeV1::CertificateRequest,
        PayloadTypeV1::Hash,
        PayloadTypeV1::Signature,
        PayloadTypeV1::Nonce,
        PayloadTypeV1::Notification,
        PayloadTypeV1::VendorID,
    ];
    for t in all {
        assert_eq!(PayloadTypeV1::try_from_u8(u8::from(t)), Some(t));
    }
    assert_eq!(u8::from(PayloadTypeV1::VendorID), 13);
    assert_eq!(PayloadTypeV1::try_from_u8(12), None);
    assert_eq!(PayloadTypeV1::try_from_u8(14), None);
}

#[test]
fn exchange_type_round_trip() {
    for t in [
        ExchangeType::IdentityProtect,
        ExchangeType::AggressiveExchange,
        ExchangeType::Informational,
        ExchangeType::QuickMode,
        ExchangeType::NewGroupMode,
    ] {
        assert_eq!(ExchangeType::try_from_u8(u8::from(t)), Some(t));
    }
    assert_eq!(u8::from(ExchangeType::IdentityProtect), 2);
    assert_eq!(u8::from(ExchangeType::QuickMode), 32);
    assert_eq!(ExchangeType::try_from_u8(3), None);
}

#[test]
fn v1_algorithm_tables_round_trip() {
    for v in 1..=8u8 {
        let t = EncryptionAlgorithmV1::try_from_u8(v).unwrap();
        assert_eq!(u16::from(t), v as u16);
    }
    assert_eq!(EncryptionAlgorithmV1::try_from_u8(9), None);
    for v in 1..=9u8 {
        let t = HashType::try_from_u8(v).unwrap();
        assert_eq!(u16::from(t), v as u16);
    }
    assert_eq!(HashType::try_from_u8(0), None);
    for v in 1..=5u8 {
        let t = AuthenticationMethod::try_from_u8(v).unwrap();
        assert_eq!(u16::from(t), v as u16);
    }
    assert_eq!(AuthenticationMethod::try_from_u8(9), None);
    assert_eq!(u16::from(EncryptionAlgorithmV1::AesCbc), 7);
    assert_eq!(u16::from(HashType::SHA2_256), 5);
}

#[test]
fn dh_group_table_keeps_the_gaps() {
    let codes: Vec<u8> = (1..=21).chain(24..=24).chain(28..=34).collect();
    for v in 0..=255u8 {
        let decoded = DhGroup::try_from_u8(v);
        assert_eq!(decoded.is_some(), codes.contains(&v));
        if let Some(g) = decoded {
            assert_eq!(u16::from(g), v as u16);
        }
    }
    assert_eq!(u16::from(DhGroup::MODP2048With256bitPrimeOrder), 24);
    assert_eq!(DhGroup::try_from_u8(22), None);
    assert_eq!(DhGroup::try_from_u8(6), Some(DhGroup::EC2N163Random));
    assert_eq!(DhGroup::try_from_u8(13), Some(DhGroup::EC2N571Koblitz));
    assert_eq!(u16::from(DhGroup::EC2N409Random), 10);
}

#[test]
fn sa_situation_round_trip() {
    for t in [SaSituation::IdentityOnly, SaSituation::Secrecy, SaSituation::Integrity] {
        assert_eq!(SaSituation::try_from_u32(u32::from(t)), Some(t));
    }
    assert_eq!(u32::from(SaSituation::Integrity), 4);
    assert_eq!(SaSituation::try_from_u32(3), None);
}

#[test]
fn payload_type_v2_round_trip() {
    for v in 0..=255u8 {
        if let Some(t) = PayloadTypeV2::try_from_u8(v) {
            assert_eq!(u8::from(t), v);
        }
    }
    assert_eq!(u8::from(PayloadTypeV2::SecurityAssociation), 33);
    assert_eq!(u8::from(PayloadTypeV2::Nonce), 40);
    assert_eq!(PayloadTypeV2::try_from_u8(43), Some(PayloadTypeV2::VendorID));
    assert_eq!(PayloadTypeV2::try_from_u8(42), None);
    assert_eq!(PayloadTypeV2::try_from_u8(1), None);
}

#[test]
fn exchange_type_v2_and_protocol_round_trip() {
    for t in [
        ExchangeTypeV2::IkeSaInit,
        ExchangeTypeV2::IkeAuth,
        ExchangeTypeV2::CreateChildSa,
        ExchangeTypeV2::Informational,
    ] {
        assert_eq!(ExchangeTypeV2::try_from_u8(u8::from(t)), Some(t));
    }
    assert_eq!(u8::from(ExchangeTypeV2::IkeSaInit), 34);
    assert_eq!(ExchangeTypeV2::try_from_u8(33), None);
    for v in 0..=5u8 {
        assert_eq!(u8::from(ProtocolId::try_from_u8(v).unwrap()), v);
    }
    assert_eq!(ProtocolId::try_from_u8(6), None);
}

#[test]
fn encode_only_tables() {
    assert_eq!(u16::from(AttributeValue::Bit128), 10);
    assert_eq!(u16::from(AttributeValue::Bit192), 12);
    assert_eq!(u16::from(AttributeValue::Bit256), 14);
    assert_eq!(u8::from(TransformTypeValues::EncryptionAlgorithm), 1);
    assert_eq!(u8::from(TransformTypeValues::DiffieHellmanGroup), 4);
    assert_eq!(u8::from(TransformTypeValues::ExtendedSequenceNumbers), 5);
}
