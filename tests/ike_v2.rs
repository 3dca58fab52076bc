use bike_scan::ikev2::{
    build_transforms_v2, key_exchange_data_from, AttributeType, IkeV2, TransformAttributeV2, TransformV2, NONCE_LEN,
};
use bike_scan::BuildError;

fn be16(b: &[u8], at: usize) -> u16 {
    u16::from_be_bytes([b[at], b[at + 1]])
}

fn be32(b: &[u8], at: usize) -> u32 {
    u32::from_be_bytes([b[at], b[at + 1], b[at + 2], b[at + 3]])
}

fn attached() -> IkeV2 {
    let (e, p, i, d) = build_transforms_v2();
    let mut packet = IkeV2::new(0x1122_3344_5566_7788);
    packet.set_transforms_v2(&e, &p, &i, &d).unwrap();
    packet
}

#[test]
fn v2_category_lists() {
    let (e, p, i, d) = build_transforms_v2();
    assert_eq!(e.len(), 37);
    assert_eq!(p.len(), 9);
    assert_eq!(i.len(), 14);
    assert_eq!(d.len(), 24);
    let prf_ids: Vec<u16> = p.iter().map(|t| t.transform_id).collect();
    assert_eq!(prf_ids, (1..=9).collect::<Vec<u16>>());
    let integ_ids: Vec<u16> = i.iter().map(|t| t.transform_id).collect();
    assert_eq!(integ_ids, (1..=14).collect::<Vec<u16>>());
    let dh_ids: Vec<u16> = d.iter().map(|t| t.transform_id).collect();
    assert_eq!(dh_ids, (1..=2).chain(5..=5).chain(14..=34).collect::<Vec<u16>>());
    assert!(p.iter().all(|t| t.transform_type == 2 && t.next_transform == 3));
    assert!(i.iter().all(|t| t.transform_type == 3));
    assert!(d.iter().all(|t| t.transform_type == 4));
}

#[test]
fn v2_key_length_entries() {
    let (e, _, _, _) = build_transforms_v2();
    for id in (1u16..=9).chain(11..=16).chain(18..=35) {
        let entries: Vec<&TransformAttributeV2> = e.iter().filter(|t| t.transform_id == id).collect();
        let lengths: Vec<u16> = entries.iter().map(|t| t.attribute.attribute_value).collect();
        if id == 12 || id == 13 {
            assert_eq!(lengths, vec![128, 192, 256]);
        } else {
            assert_eq!(lengths, vec![0]);
        }
        assert!(entries.iter().all(|t| t.attribute.attribute_type == 0x800e && t.transform_type == 1));
    }
    assert!(e.iter().all(|t| t.transform_id != 10 && t.transform_id != 17));
}

#[test]
fn v2_chain_terminal_marker() {
    let packet = attached();
    assert_eq!(packet.proposal_v2.number_of_transforms, 84);
    assert!(packet.encryption_transforms.iter().all(|t| t.next_transform == 3));
    assert!(packet.prf_transform.iter().all(|t| t.next_transform == 3));
    assert!(packet.integrity_algorithm_transform.iter().all(|t| t.next_transform == 3));
    let d = &packet.diffie_transform;
    assert!(d[..d.len() - 1].iter().all(|t| t.next_transform == 3));
    assert_eq!(d[d.len() - 1].next_transform, 0);
}

#[test]
fn v2_chain_ends_in_earlier_category() {
    let (e, p, i, _) = build_transforms_v2();
    let mut packet = IkeV2::new(1);
    packet.set_transforms_v2(&e, &p, &i, &[]).unwrap();
    let last = packet.integrity_algorithm_transform.last().unwrap();
    assert_eq!(last.next_transform, 0);
    assert!(packet.prf_transform.iter().all(|t| t.next_transform == 3));
}

#[test]
fn v2_normalization_refuses_256() {
    let (e, p, i, d) = build_transforms_v2();
    let mut many: Vec<TransformV2> = Vec::new();
    while many.len() < 256 - e.len() - p.len() - i.len() {
        many.extend_from_slice(&d);
    }
    many.truncate(256 - e.len() - p.len() - i.len());
    let mut packet = IkeV2::new(1);
    assert_eq!(packet.set_transforms_v2(&e, &p, &i, &many), Err(BuildError::TooManyTransforms));
    assert_eq!(packet.proposal_v2.number_of_transforms, 0);
    assert!(packet.diffie_transform.is_empty());
    many.pop();
    assert_eq!(packet.set_transforms_v2(&e, &p, &i, &many), Ok(()));
    assert_eq!(packet.proposal_v2.number_of_transforms, 255);
}

#[test]
fn v2_length_resolution_values_and_idempotence() {
    let mut packet = attached();
    packet.key_exchange_data = vec![7; 128];
    packet.generate_nonce_data();
    assert_eq!(packet.calculate_length_v2(), Ok(()));
    assert!(packet.encryption_transforms.iter().all(|t| t.length == 12));
    assert!(packet.diffie_transform.iter().all(|t| t.length == 8));
    assert_eq!(packet.proposal_v2.length, 8 + 37 * 12 + 47 * 8);
    assert_eq!(packet.sa_payload_v2.sa2_length, 832);
    assert_eq!(packet.key_exchange.length, 136);
    assert_eq!(packet.nonce_payload.length, 178);
    assert_eq!(packet.header.length, 28 + 832 + 136 + 178);
    let before = (
        packet.header.length,
        packet.sa_payload_v2.sa2_length,
        packet.proposal_v2.length,
        packet.key_exchange.length,
        packet.nonce_payload.length,
    );
    assert_eq!(packet.calculate_length_v2(), Ok(()));
    let after = (
        packet.header.length,
        packet.sa_payload_v2.sa2_length,
        packet.proposal_v2.length,
        packet.key_exchange.length,
        packet.nonce_payload.length,
    );
    assert_eq!(before, after);
}

#[test]
fn v2_length_overflow_is_refused() {
    let mut packet = attached();
    packet.key_exchange_data = vec![0; 70000];
    assert_eq!(packet.calculate_length_v2(), Err(BuildError::LengthOverflow));
    assert_eq!(packet.header.length, 0);
    assert_eq!(packet.key_exchange.length, 0);
    packet.key_exchange_data = vec![0; 0xffff - 8];
    assert_eq!(packet.calculate_length_v2(), Ok(()));
    assert_eq!(packet.key_exchange.length, 0xffff);
}

#[test]
fn v2_nonce_is_174_bytes() {
    let mut packet = IkeV2::new(1);
    packet.generate_nonce_data();
    assert_eq!(packet.nonce_data.len(), NONCE_LEN);
    assert_eq!(packet.nonce_data.len(), 174);
}

#[test]
fn v2_end_to_end_declared_length() {
    let mut packet = attached();
    packet.key_exchange_data = (0..128u32).map(|x| x as u8).collect();
    packet.generate_nonce_data();
    packet.calculate_length_v2().unwrap();
    let bytes = packet.convert_to_bytes_v2();
    assert_eq!(be32(&bytes, 24) as usize, bytes.len());
    assert_eq!(bytes.len(), 1174);
    let ke_at = 28 + 832;
    assert_eq!(be16(&bytes, ke_at + 2) as usize, 8 + 128);
    assert_eq!(be16(&bytes, ke_at + 4), 2);
    assert_eq!(&bytes[ke_at + 8..ke_at + 136], &packet.key_exchange_data[..]);
    let nonce_at = ke_at + 136;
    assert_eq!(bytes[nonce_at], 0);
    assert_eq!(be16(&bytes, nonce_at + 2), 4 + 174);
    assert_eq!(&bytes[nonce_at + 4..], &packet.nonce_data[..]);
}

#[test]
fn v2_header_bytes() {
    let mut packet = attached();
    packet.calculate_length_v2().unwrap();
    let bytes = packet.convert_to_bytes_v2();
    assert_eq!(
        &bytes[..28],
        &[
            0x11, 0x22, 0x33, 0x44, 0x55, 0x66, 0x77, 0x88, 0, 0, 0, 0, 0, 0, 0, 0, 33, 0x20, 34,
            0x08, 0, 0, 0, 0, 0, 0, 0x03, 0x68
        ]
    );
    assert_eq!(&bytes[28..32], &[34, 0, 0x03, 0x40]);
    assert_eq!(&bytes[32..40], &[0, 0, 0x03, 0x3c, 1, 1, 0, 84]);
    assert_eq!(&bytes[40..52], &[3, 0, 0, 12, 1, 0, 0, 1, 0x80, 0x0e, 0, 0]);
}

#[test]
fn v2_reserved_bytes_are_zero() {
    let mut packet = attached();
    packet.key_exchange_data = vec![0xff; 128];
    packet.generate_nonce_data();
    packet.calculate_length_v2().unwrap();
    let bytes = packet.convert_to_bytes_v2();
    assert_eq!(bytes[29], 0);
    assert_eq!(bytes[33], 0);
    let mut at = 40;
    for _ in 0..37 {
        assert_eq!(bytes[at + 1], 0);
        assert_eq!(bytes[at + 5], 0);
        at += 12;
    }
    for _ in 0..47 {
        assert_eq!(bytes[at + 1], 0);
        assert_eq!(bytes[at + 5], 0);
        at += 8;
    }
    assert_eq!(bytes[at + 1], 0);
    assert_eq!(&bytes[at + 6..at + 8], &[0, 0]);
    at += 8 + 128;
    assert_eq!(bytes[at + 1], 0);
}

#[test]
fn v2_key_length_attribute_has_significant_bit() {
    assert_eq!(u16::from(AttributeType::KeyLength) & 0x8000, 0x8000);
}

#[test]
fn v2_key_exchange_data_matches_prime_size() {
    let mut packet = IkeV2::new(1);
    assert_eq!(packet.generate_key_exchange_data(), Ok(()));
    assert_eq!(packet.key_exchange_data.len(), 128);
    packet.calculate_length_v2().unwrap();
    assert_eq!(packet.key_exchange.length, 136);
}

#[test]
fn v2_key_exchange_data_from_outcomes() {
    let padded: Vec<u8> = (0..128u32).map(|x| x as u8).collect();
    assert_eq!(key_exchange_data_from(128, Some(padded.clone())), Ok(padded.clone()));
    assert_eq!(key_exchange_data_from(128, None), Err(BuildError::KeyMaterial));
    assert_eq!(key_exchange_data_from(127, Some(padded.clone())), Err(BuildError::KeyMaterial));
    assert_eq!(key_exchange_data_from(256, Some(padded)), Err(BuildError::KeyMaterial));
    assert_eq!(key_exchange_data_from(0, None), Err(BuildError::KeyMaterial));
}

#[test]
fn v2_associated_generator_matches() {
    let (e1, p1, i1, d1) = IkeV2::build_transforms_v2();
    let (e2, p2, i2, d2) = build_transforms_v2();
    assert_eq!(e1, e2);
    assert_eq!(p1, p2);
    assert_eq!(i1, i2);
    assert_eq!(d1, d2);
}
