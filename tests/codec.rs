use tergent::asn1::{integer_pair, DerBlock};
use tergent::identity::{blob, from_ec, from_rsa, identity, Algorithm, Curve};
use tergent::key::{EcCurve, EcKey, Key, RsaKey};
use tergent::listing::{as_hex, parse_key, to_list, ListingEntry};
use tergent::wire::{push_u32, read_u32};

fn modulus_c1() -> Vec<u8> {
    let mut m = vec![0xC1u8];
    for i in 1..256 {
        m.push((i % 251) as u8);
    }
    m
}

fn hex_of(b: &[u8]) -> String {
    b.iter().map(|x| format!("{:02x}", x)).collect()
}

#[test]
fn rsa_blob_layout() {
    let m = modulus_c1();
    let b = from_rsa(&m);
    let mut expected: Vec<u8> = vec![0, 0, 0, 7];
    expected.extend_from_slice(b"ssh-rsa");
    expected.extend_from_slice(&[0, 0, 0, 3, 1, 0, 1]);
    expected.extend_from_slice(&[0, 0, 1, 1, 0]);
    expected.extend_from_slice(&m);
    assert_eq!(b, expected);
    assert_eq!(b.len(), 4 + 7 + 4 + 3 + 4 + 1 + 256);
}

#[test]
fn rsa_blob_prepends_zero_even_without_high_bit() {
    let b = from_rsa(&[0x01, 0x02]);
    assert_eq!(&b[18..], &[0, 0, 0, 3, 0, 1, 2]);
}

#[test]
fn ec_blob_layout_pads_coordinates() {
    let x = vec![0x11u8; 31];
    let y = vec![0x22u8; 32];
    let b = from_ec(Curve::P256, &x, &y);
    let mut expected: Vec<u8> = vec![0, 0, 0, 19];
    expected.extend_from_slice(b"ecdsa-sha2-nistp256");
    expected.extend_from_slice(&[0, 0, 0, 8]);
    expected.extend_from_slice(b"nistp256");
    expected.extend_from_slice(&[0, 0, 0, 65, 4, 0]);
    expected.extend_from_slice(&x);
    expected.extend_from_slice(&y);
    assert_eq!(b, expected);
}

#[test]
fn ec_blob_p521_length() {
    let b = from_ec(Curve::P521, &[1u8; 66], &[2u8; 65]);
    assert_eq!(b.len(), 4 + 19 + 4 + 8 + 4 + 133);
    assert_eq!(&b[4..23], b"ecdsa-sha2-nistp521");
}

#[test]
fn algorithm_parse_cases() {
    assert_eq!(Algorithm::parse("RSA", 2048), Some(Algorithm::Rsa));
    assert_eq!(Algorithm::parse("RSA", 7), Some(Algorithm::Rsa));
    assert_eq!(Algorithm::parse("EC", 256), Some(Algorithm::Ec(Curve::P256)));
    assert_eq!(Algorithm::parse("EC", 384), Some(Algorithm::Ec(Curve::P384)));
    assert_eq!(Algorithm::parse("EC", 521), Some(Algorithm::Ec(Curve::P521)));
    assert_eq!(Algorithm::parse("EC", 255), None);
    assert_eq!(Algorithm::parse("DSA", 1024), None);
    assert_eq!(Algorithm::parse("rsa", 2048), None);
}

#[test]
fn curve_names() {
    assert_eq!(Curve::P256.name(), "nistp256");
    assert_eq!(Curve::P384.name(), "nistp384");
    assert_eq!(Curve::P521.name(), "nistp521");
    assert_eq!(Curve::P384.name_bytes(), b"nistp384".to_vec());
}

#[test]
fn hex_reading() {
    assert_eq!(as_hex("0a0B"), Some(vec![0x0a, 0x0b]));
    assert_eq!(as_hex("abc"), Some(vec![0x0a, 0xbc]));
    assert_eq!(as_hex(""), Some(vec![]));
    assert_eq!(as_hex("zz"), None);
    assert_eq!(as_hex("1g3"), None);
}

#[test]
fn u32_encoding_round_trip() {
    let mut out = Vec::new();
    push_u32(&mut out, 0x0102_0304);
    assert_eq!(out, vec![1, 2, 3, 4]);
    assert_eq!(read_u32(&out, 0), 0x0102_0304);
}

fn listing() -> String {
    let m = modulus_c1();
    format!(
        "[{{\"alias\":\"rsa1\",\"algorithm\":\"RSA\",\"size\":2048,\"modulus\":\"{}\",\"exponent\":\"10001\"}},\
         {{\"alias\":\"bad\",\"algorithm\":\"DSA\",\"size\":1024}},\
         {{\"alias\":\"ec1\",\"algorithm\":\"EC\",\"size\":256,\"x\":\"{}\",\"y\":\"{}\"}},\
         {{\"alias\":\"ec2\",\"algorithm\":\"EC\",\"size\":999,\"x\":\"01\",\"y\":\"02\"}},\
         {{\"alias\":\"nomod\",\"algorithm\":\"RSA\",\"size\":2048}}]",
        hex_of(&m),
        hex_of(&[0x33u8; 32]),
        hex_of(&[0x44u8; 32])
    )
}

#[test]
fn listing_skips_unusable_entries() {
    let keys = to_list(&listing()).unwrap();
    assert_eq!(keys.len(), 2);
    assert_eq!(keys[0].label(), "rsa1");
    assert_eq!(keys[1].label(), "ec1");
    match &keys[0] {
        Key::Rsa(k) => {
            assert_eq!(k.modulus(), &modulus_c1()[..]);
            assert_eq!(k.exponent(), &[1, 0, 1]);
        }
        Key::Ec(_) => panic!("expected an RSA key"),
    }
    match &keys[1] {
        Key::Ec(k) => {
            assert_eq!(k.curve(), EcCurve::P256);
            assert_eq!(k.x(), &[0x33u8; 32]);
        }
        Key::Rsa(_) => panic!("expected an EC key"),
    }
}

#[test]
fn listing_that_is_not_an_array() {
    assert!(to_list("{\"alias\":\"x\"}").is_none());
    assert!(to_list("not json").is_none());
    assert_eq!(to_list("[]").unwrap().len(), 0);
}

#[test]
fn parse_key_rejects_long_coordinates() {
    let entry = ListingEntry {
        alias: Some("long".to_string()),
        algorithm: Some("EC".to_string()),
        size: Some(256),
        modulus: None,
        exponent: None,
        x: Some(hex_of(&[1u8; 33])),
        y: Some(hex_of(&[1u8; 32])),
    };
    assert!(parse_key(&entry).is_none());
}

#[test]
fn parse_key_needs_alias_and_size() {
    let entry = ListingEntry {
        alias: None,
        algorithm: Some("RSA".to_string()),
        size: Some(2048),
        modulus: Some("00".to_string()),
        exponent: Some("03".to_string()),
        x: None,
        y: None,
    };
    assert!(parse_key(&entry).is_none());
    let entry = ListingEntry {
        alias: Some("a".to_string()),
        algorithm: Some("RSA".to_string()),
        size: None,
        modulus: Some("00".to_string()),
        exponent: Some("03".to_string()),
        x: None,
        y: None,
    };
    assert!(parse_key(&entry).is_none());
}

#[test]
fn ec_point_attribute_for_p256() {
    let x: Vec<u8> = (0..32).map(|i| i as u8 + 1).collect();
    let y: Vec<u8> = (0..32).map(|i| 0xff - i as u8).collect();
    let k = EcKey::new("ec".to_string(), EcCurve::P256, x.clone(), y.clone()).unwrap();
    let der = k.point_as_asn1();
    let mut expected = vec![0x04u8, 65, 0x04];
    expected.extend_from_slice(&x);
    expected.extend_from_slice(&y);
    assert_eq!(der, expected);
}

#[test]
fn ec_point_attribute_pads_and_uses_long_length() {
    let k = EcKey::new("ec".to_string(), EcCurve::P521, vec![7u8; 65], vec![9u8; 66]).unwrap();
    let der = k.point_as_asn1();
    assert_eq!(&der[..4], &[0x04, 0x81, 133, 0x04]);
    assert_eq!(der[4], 0);
    assert_eq!(der.len(), 3 + 133);
}

#[test]
fn ec_params_attribute() {
    let p256 = EcKey::new("a".to_string(), EcCurve::P256, vec![1], vec![2]).unwrap();
    assert_eq!(p256.params_as_asn1(), vec![0x06, 0x08, 0x2A, 0x86, 0x48, 0xCE, 0x3D, 0x03, 0x01, 0x07]);
    let p384 = EcKey::new("a".to_string(), EcCurve::P384, vec![1], vec![2]).unwrap();
    assert_eq!(p384.params_as_asn1(), vec![0x06, 0x05, 0x2B, 0x81, 0x04, 0x00, 0x22]);
    let p521 = EcKey::new("a".to_string(), EcCurve::P521, vec![1], vec![2]).unwrap();
    assert_eq!(p521.params_as_asn1(), vec![0x06, 0x05, 0x2B, 0x81, 0x04, 0x00, 0x23]);
}

fn der_signature(r: &[u8], s: &[u8]) -> Vec<u8> {
    let mut body = vec![0x02, r.len() as u8];
    body.extend_from_slice(r);
    body.push(0x02);
    body.push(s.len() as u8);
    body.extend_from_slice(s);
    let mut out = vec![0x30, body.len() as u8];
    out.extend_from_slice(&body);
    out
}

#[test]
fn signature_from_der_is_padded() {
    let k = EcKey::new("a".to_string(), EcCurve::P256, vec![1], vec![2]).unwrap();
    let r = vec![0x00, 0x80, 0x01];
    let s = vec![0x05];
    let out = k.signature_from_asn1(&der_signature(&r, &s)).unwrap();
    assert_eq!(out.len(), 64);
    let mut expected = vec![0u8; 30];
    expected.extend_from_slice(&[0x80, 0x01]);
    expected.extend_from_slice(&[0u8; 31]);
    expected.push(0x05);
    assert_eq!(out, expected);
}

#[test]
fn signature_from_der_rejects_other_shapes() {
    let k = EcKey::new("a".to_string(), EcCurve::P256, vec![1], vec![2]).unwrap();
    assert!(k.signature_from_asn1(&[0x02, 0x01, 0x05]).is_none());
    assert!(k.signature_from_asn1(&[0x30, 0x03, 0x02, 0x01, 0x05]).is_none());
    assert!(k.signature_from_asn1(&[0x30, 0x05]).is_none());
    let too_long = der_signature(&[0x11u8; 33], &[0x01]);
    assert!(k.signature_from_asn1(&too_long).is_none());
}

#[test]
fn rsa_sign_passes_signature_on() {
    let k = Key::Rsa(RsaKey::new("r".to_string(), vec![1, 2], vec![3]).unwrap());
    assert_eq!(k.sign(&[9, 8, 7]), Some(vec![9, 8, 7]));
    assert_eq!(k.backend_algorithm(), "NONEwithRSA");
}

#[test]
fn ec_sign_converts_der() {
    let k = Key::Ec(EcKey::new("e".to_string(), EcCurve::P384, vec![1], vec![2]).unwrap());
    let out = k.sign(&der_signature(&[0x01], &[0x02])).unwrap();
    assert_eq!(out.len(), 96);
    assert_eq!(out[47], 1);
    assert_eq!(out[95], 2);
    assert_eq!(k.backend_algorithm(), "NONEwithECDSA");
}

#[test]
fn identity_of_parsed_keys() {
    let keys = to_list(&listing()).unwrap();
    let id = identity(&keys[1]);
    assert_eq!(id.algorithm, Algorithm::Ec(Curve::P256));
    assert_eq!(id.alias, "ec1");
    let b = blob(&keys[0]);
    assert_eq!(b, from_rsa(&modulus_c1()));
}

#[test]
fn components_agree_between_paths() {
    let keys = to_list(&listing()).unwrap();
    match &keys[1] {
        Key::Ec(k) => {
            let der = k.point_as_asn1();
            let b = blob(&keys[1]);
            assert_eq!(&der[2..], &b[b.len() - 65..]);
        }
        Key::Rsa(_) => panic!("expected an EC key"),
    }
    match &keys[0] {
        Key::Rsa(k) => {
            let b = blob(&keys[0]);
            assert_eq!(&b[b.len() - 256..], k.modulus());
            assert_eq!(&b[15..18], k.exponent());
        }
        Key::Ec(_) => panic!("expected an RSA key"),
    }
}

#[test]
fn key_constructors_refuse_oversized_parts() {
    assert!(EcKey::new("a".to_string(), EcCurve::P256, vec![0; 33], vec![0]).is_none());
    assert!(RsaKey::new("a".to_string(), vec![0; 0x1_0001], vec![1; 0x1_0001]).is_some());
}

#[test]
fn integer_pair_needs_exactly_one_sequence_of_two_integers() {
    let pair = vec![DerBlock::Sequence(vec![Some(vec![1]), Some(vec![2, 3])])];
    assert_eq!(integer_pair(&pair), Some((vec![1], vec![2, 3])));
    let three = vec![DerBlock::Sequence(vec![Some(vec![1]), Some(vec![2]), Some(vec![3])])];
    assert_eq!(integer_pair(&three), None);
    let not_integer = vec![DerBlock::Sequence(vec![Some(vec![1]), None])];
    assert_eq!(integer_pair(&not_integer), None);
    let bare = vec![DerBlock::Integer(vec![1])];
    assert_eq!(integer_pair(&bare), None);
    let trailing = vec![DerBlock::Sequence(vec![Some(vec![1]), Some(vec![2])]), DerBlock::Other];
    assert_eq!(integer_pair(&trailing), None);
    assert_eq!(integer_pair(&vec![]), None);
}

#[test]
fn signature_with_trailing_block_is_refused() {
    let k = EcKey::new("a".to_string(), EcCurve::P256, vec![1], vec![2]).unwrap();
    let mut der = der_signature(&[0x01], &[0x02]);
    der.extend_from_slice(&[0x05, 0x00]);
    assert!(k.signature_from_asn1(&der).is_none());
}
