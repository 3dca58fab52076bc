use std::collections::HashSet;

use bike_scan::ike::{
    build_transforms, AttributeType, IkeV1, PayloadTypeV1, Transform, V1_TRANSFORM_COUNT,
};
use bike_scan::BuildError;

fn be16(b: &[u8], at: usize) -> u16 {
    u16::from_be_bytes([b[at], b[at + 1]])
}

fn be32(b: &[u8], at: usize) -> u32 {
    u32::from_be_bytes([b[at], b[at + 1], b[at + 2], b[at + 3]])
}

fn combo(t: &Transform) -> (u16, u16, u16, u16) {
    (
        t.authentication_method_attribute.attribute_value_or_length,
        t.diffie_hellman_attribute.attribute_value_or_length,
        t.hash_attribute.attribute_value_or_length,
        t.encryption_attribute.attribute_value_or_length,
    )
}

#[test]
fn v1_generates_every_combination_once() {
    let transforms = build_transforms();
    assert_eq!(transforms.len(), V1_TRANSFORM_COUNT);
    assert_eq!(transforms.len(), 8 * 29 * 6 * 8);
    let seen: HashSet<(u16, u16, u16, u16)> = transforms.iter().map(combo).collect();
    assert_eq!(seen.len(), transforms.len());
    let auths: Vec<u16> = (1..=5).chain(9..=11).collect();
    let groups: Vec<u16> = (1..=21).chain(24..=24).chain(28..=34).collect();
    for a in &auths {
        for g in &groups {
            for h in 1..=6u16 {
                for e in 1..=8u16 {
                    assert!(seen.contains(&(*a, *g, h, e)));
                }
            }
        }
    }
    for g in [22u16, 23, 25, 26, 27, 35] {
        assert!(transforms.iter().all(|t| t.diffie_hellman_attribute.attribute_value_or_length != g));
    }
}

#[test]
fn v1_generation_order_and_fixed_fields() {
    let transforms = build_transforms();
    assert_eq!(combo(&transforms[0]), (1, 1, 1, 1));
    assert_eq!(combo(&transforms[1]), (1, 1, 1, 2));
    assert_eq!(combo(&transforms[8]), (1, 1, 2, 1));
    assert_eq!(combo(&transforms[48]), (1, 2, 1, 1));
    assert_eq!(combo(&transforms[1392]), (2, 1, 1, 1));
    assert_eq!(combo(&transforms[5 * 1392]), (9, 1, 1, 1));
    assert_eq!(combo(&transforms[21 * 48]), (1, 24, 1, 1));
    assert_eq!(combo(&transforms[22 * 48]), (1, 28, 1, 1));
    assert_eq!(combo(transforms.last().unwrap()), (11, 34, 6, 8));
    let t = transforms[0];
    assert_eq!(t.transform_payload.next_payload, 3);
    assert_eq!(t.transform_payload.length, 36);
    assert_eq!(t.transform_payload.transform_id, 1);
    assert_eq!(t.encryption_attribute.attribute_type, 0x8001);
    assert_eq!(t.hash_attribute.attribute_type, 0x8002);
    assert_eq!(t.authentication_method_attribute.attribute_type, 0x8003);
    assert_eq!(t.diffie_hellman_attribute.attribute_type, 0x8004);
    assert_eq!(t.life_type_attribute.attribute_type, 0x800b);
    assert_eq!(t.life_type_attribute.attribute_value_or_length, 1);
    assert_eq!(t.life_duration_attribute.attribute_type, 12);
    assert_eq!(t.life_duration_attribute.attribute_value_or_length, 4);
    assert_eq!(t.life_duration_value, 28800);
}

#[test]
fn v1_normalization_numbers_and_terminates() {
    let transforms = build_transforms();
    let mut packet = IkeV1::new(7);
    assert_eq!(packet.set_transforms(&transforms[100..110]), Ok(()));
    assert_eq!(packet.proposal_payload.number_of_transforms, 10);
    assert_eq!(packet.transform.len(), 10);
    for (i, t) in packet.transform.iter().enumerate() {
        assert_eq!(t.transform_payload.transform_number as usize, i + 1);
        let expected = if i == 9 { 0 } else { 3 };
        assert_eq!(t.transform_payload.next_payload, expected);
        assert_eq!(combo(t), combo(&transforms[100 + i]));
    }
}

#[test]
fn v1_normalization_accepts_255() {
    let transforms = build_transforms();
    let mut packet = IkeV1::new(7);
    assert_eq!(packet.set_transforms(&transforms[..255]), Ok(()));
    assert_eq!(packet.proposal_payload.number_of_transforms, 255);
    assert_eq!(packet.transform[254].transform_payload.transform_number, 255);
    assert_eq!(packet.transform[254].transform_payload.next_payload, 0);
    assert_eq!(packet.transform[253].transform_payload.next_payload, 3);
}

#[test]
fn v1_normalization_refuses_256() {
    let transforms = build_transforms();
    let mut packet = IkeV1::new(7);
    assert_eq!(packet.set_transforms(&transforms[..3]), Ok(()));
    assert_eq!(packet.set_transforms(&transforms[..256]), Err(BuildError::TooManyTransforms));
    assert_eq!(packet.set_transforms(&transforms), Err(BuildError::TooManyTransforms));
    assert_eq!(packet.proposal_payload.number_of_transforms, 3);
    assert_eq!(packet.transform.len(), 3);
}

#[test]
fn v1_length_resolution_values_and_idempotence() {
    let transforms = build_transforms();
    let mut packet = IkeV1::new(7);
    packet.set_transforms(&transforms[..2]).unwrap();
    packet.calculate_length();
    assert_eq!(packet.proposal_payload.length, 8 + 2 * 36);
    assert_eq!(packet.security_association_payload.sa_length, 92);
    assert_eq!(packet.header.length, 120);
    let first = (
        packet.proposal_payload.length,
        packet.security_association_payload.sa_length,
        packet.header.length,
    );
    packet.calculate_length();
    let second = (
        packet.proposal_payload.length,
        packet.security_association_payload.sa_length,
        packet.header.length,
    );
    assert_eq!(first, second);
}

#[test]
fn v1_end_to_end_declared_length() {
    let transforms = build_transforms();
    let mut packet = IkeV1::new(0x0102_0304_0506_0708);
    packet.set_transforms(&transforms[..255]).unwrap();
    packet.calculate_length();
    let bytes = packet.convert_to_bytes();
    assert_eq!(bytes.len(), 9228);
    assert_eq!(be32(&bytes, 24) as usize, bytes.len());
    assert_eq!(packet.header.length as usize, bytes.len());
}

#[test]
fn v1_header_and_payload_bytes() {
    let transforms = build_transforms();
    let mut packet = IkeV1::new(0x0102_0304_0506_0708);
    packet.set_transforms(&transforms[..1]).unwrap();
    packet.calculate_length();
    let bytes = packet.convert_to_bytes();
    let expected: Vec<u8> = vec![
        1, 2, 3, 4, 5, 6, 7, 8, // initiator SPI
        0, 0, 0, 0, 0, 0, 0, 0, // responder SPI
        1, 0x10, 2, 0, // next payload, version, exchange type, flags
        0, 0, 0, 0, // message id
        0, 0, 0, 84, // length
        0, 0, 0, 56, 0, 0, 0, 1, 0, 0, 0, 1, // security association
        0, 0, 0, 44, 1, 1, 0, 1, // proposal
        0, 0, 0, 36, 1, 1, 0, 0, // transform header
        0x80, 1, 0, 1, 0x80, 2, 0, 1, 0x80, 4, 0, 1, 0x80, 3, 0, 1, // attributes
        0x80, 11, 0, 1, 0, 12, 0, 4, 0, 0, 0x70, 0x80, // life type, duration
    ];
    assert_eq!(bytes, expected);
    assert_eq!(be16(&bytes, 30), 56);
}

#[test]
fn v1_reserved_bytes_are_zero() {
    let transforms = build_transforms();
    let mut packet = IkeV1::new(u64::MAX);
    packet.set_transforms(&transforms[300..555]).unwrap();
    packet.calculate_length();
    let bytes = packet.convert_to_bytes();
    assert_eq!(bytes[29], 0);
    assert_eq!(bytes[41], 0);
    for k in 0..255 {
        let at = 48 + 36 * k;
        assert_eq!(bytes[at + 1], 0);
        assert_eq!(bytes[at + 6], 0);
        assert_eq!(bytes[at + 7], 0);
    }
}

#[test]
fn v1_significant_bit() {
    for t in [
        AttributeType::Encryption,
        AttributeType::HashType,
        AttributeType::AuthenticationMethod,
        AttributeType::DiffieHellmanGroup,
        AttributeType::LifeType,
    ] {
        assert_eq!(u16::from(t) & 0x8000, 0x8000);
    }
    assert_eq!(u16::from(AttributeType::LifeDuration) & 0x8000, 0);
    assert_eq!(u8::from(PayloadTypeV1::Transform), 3);
}

#[test]
fn v1_associated_generator_matches() {
    let a = IkeV1::build_transforms();
    let b = build_transforms();
    assert_eq!(a.len(), V1_TRANSFORM_COUNT);
    assert_eq!(a, b);
}
