use tergent::key::{EcCurve, EcKey, Key, RsaKey};
use tergent::pkcs11::{
    CertificateCategory, CertificateType, HardwareFeatureType, KeyDerivationFunction, KeyType,
    MaskGenerationFunction, Notification, ObjectClass, Param, PseudoRandomFunction, ReturnValue,
    SecurityDomain, SessionState, UserType, Format,
};
use tergent::state::State;
use tergent::store::{count, get, new, remove, Registry};
use tergent::token::{
    attribute_value, attributes_status, check_open_session, check_slot, find_objects, find_objects_init,
    place_attribute,
    get_attribute_values, sign_answer, sign_init, AttributeValue, TemplateAttribute,
};

fn rsa(label: &str) -> Key {
    Key::Rsa(RsaKey::new(label.to_string(), vec![0xC1, 2, 3], vec![1, 0, 1]).unwrap())
}

fn ec(label: &str) -> Key {
    Key::Ec(EcKey::new(label.to_string(), EcCurve::P256, vec![0x33; 32], vec![0x44; 31]).unwrap())
}

fn session() -> State {
    State::new(vec![rsa("a"), ec("b"), rsa("c")])
}

fn class(c: u64) -> TemplateAttribute {
    TemplateAttribute { kind: 0x0000, value: c.to_le_bytes().to_vec() }
}

fn id(s: &[u8]) -> TemplateAttribute {
    TemplateAttribute { kind: 0x0102, value: s.to_vec() }
}

fn der_signature(r: &[u8], s: &[u8]) -> Vec<u8> {
    let mut body = vec![0x02, r.len() as u8];
    body.extend_from_slice(r);
    body.push(0x02);
    body.push(s.len() as u8);
    body.extend_from_slice(s);
    let mut out = vec![0x30, body.len() as u8];
    out.extend_from_slice(&body);
    out
}

#[test]
fn unfiltered_search_lists_all_in_order() {
    let mut s = session();
    s.find_init(true, None);
    assert_eq!(s.find_next(), Some(0));
    assert_eq!(s.find_next(), Some(1));
    assert_eq!(s.find_next(), Some(2));
    assert_eq!(s.find_next(), None);
    assert_eq!(s.find_next(), None);
}

#[test]
fn search_not_for_keys_finds_nothing() {
    let mut s = session();
    s.find_init(false, None);
    assert_eq!(s.find_next(), None);
}

#[test]
fn label_search_finds_one() {
    let mut s = session();
    s.find_init(true, Some("b".to_string()));
    assert_eq!(s.find_next(), Some(1));
    assert_eq!(s.find_next(), None);
    s.find_init(true, Some("zzz".to_string()));
    assert_eq!(s.find_next(), None);
}

#[test]
fn find_init_restarts_search() {
    let mut s = session();
    s.find_init(true, None);
    assert_eq!(s.find_next(), Some(0));
    s.find_init(true, None);
    assert_eq!(s.find_next(), Some(0));
}

#[test]
fn session_from_listing() {
    let json = "[{\"alias\":\"k\",\"algorithm\":\"RSA\",\"size\":1024,\"modulus\":\"c1\",\"exponent\":\"03\"}]";
    let s = State::from_listing(json).unwrap();
    assert_eq!(s.key_count(), 1);
    assert_eq!(s.get_key(0).unwrap().label(), "k");
    assert!(State::from_listing("{}").is_none());
}

#[test]
fn sign_key_selection() {
    let mut s = session();
    assert!(s.get_sign_key().is_none());
    assert!(!s.sign_init(3));
    assert!(s.get_sign_key().is_none());
    assert!(s.sign_init(1));
    assert_eq!(s.get_sign_key().unwrap().label(), "b");
    assert!(s.get_key(5).is_none());
}

#[test]
fn registry_uses_smallest_free_handle() {
    let mut reg: Registry<&str> = Registry::empty();
    assert_eq!(new(&mut reg, "s0"), Some(0));
    assert_eq!(new(&mut reg, "s1"), Some(1));
    assert_eq!(new(&mut reg, "s2"), Some(2));
    assert_eq!(count(&reg), 3);
    assert_eq!(remove(&mut reg, 1), Some("s1"));
    assert_eq!(remove(&mut reg, 1), None);
    assert_eq!(count(&reg), 2);
    assert_eq!(new(&mut reg, "s3"), Some(1));
    assert_eq!(get(&reg, 1), Some(&"s3"));
    assert_eq!(get(&reg, 7), None);
}

#[test]
fn slot_and_session_checks() {
    assert_eq!(check_slot(10), ReturnValue::Success);
    assert_eq!(check_slot(0), ReturnValue::SlotIdInvalid);
    assert_eq!(check_open_session(10, 4), ReturnValue::Success);
    assert_eq!(check_open_session(10, 6), ReturnValue::Success);
    assert_eq!(check_open_session(10, 2), ReturnValue::SessionParallelNotSupported);
    assert_eq!(check_open_session(11, 4), ReturnValue::SlotIdInvalid);
    assert_eq!(check_open_session(10, 1 << 40), ReturnValue::SessionParallelNotSupported);
    assert_eq!(check_open_session(10, (1 << 40) | 4), ReturnValue::Success);
}

#[test]
fn attributes_of_rsa_key() {
    let k = rsa("a");
    assert!(matches!(attribute_value(&k, 0x0100), AttributeValue::Ulong(0)));
    assert!(matches!(attribute_value(&k, 0x0003), AttributeValue::Bytes(b) if b == b"a".to_vec()));
    assert!(matches!(attribute_value(&k, 0x0102), AttributeValue::Bytes(b) if b == b"a".to_vec()));
    assert!(matches!(attribute_value(&k, 0x0120), AttributeValue::Bytes(b) if b == vec![0xC1, 2, 3]));
    assert!(matches!(attribute_value(&k, 0x0122), AttributeValue::Bytes(b) if b == vec![1, 0, 1]));
    assert!(matches!(attribute_value(&k, 0x0181), AttributeValue::Unavailable));
    assert!(matches!(attribute_value(&k, 0x0202), AttributeValue::Bool(false)));
}

#[test]
fn attributes_of_ec_key() {
    let k = ec("b");
    assert!(matches!(attribute_value(&k, 0x0100), AttributeValue::Ulong(3)));
    assert!(matches!(attribute_value(&k, 0x0120), AttributeValue::Unavailable));
    assert!(matches!(attribute_value(&k, 0x0181), AttributeValue::Bytes(b) if b.len() == 67 && b[0..4] == [4, 65, 4, 0x33]));
    assert!(matches!(attribute_value(&k, 0x0180), AttributeValue::Bytes(b) if b[0] == 6));
}

#[test]
fn attribute_call_fills_what_it_can() {
    let k = ec("b");
    let (values, status) = get_attribute_values(&k, &vec![0x0100, 0x0120, 0x0003, 0x9999]);
    assert_eq!(status, ReturnValue::AttributeTypeInvalid);
    assert_eq!(values.len(), 4);
    assert!(matches!(values[0], AttributeValue::Ulong(3)));
    assert!(matches!(values[1], AttributeValue::Unavailable));
    assert!(matches!(&values[2], AttributeValue::Bytes(b) if b == &b"b".to_vec()));
    assert!(matches!(values[3], AttributeValue::Unavailable));
    let (_, status) = get_attribute_values(&k, &vec![0x0100, 0x0181]);
    assert_eq!(status, ReturnValue::Success);
}

#[test]
fn find_template_for_keys_with_id() {
    let mut s = session();
    let t = vec![class(2), id(b"c"), TemplateAttribute { kind: 0x0108, value: vec![1] }];
    assert_eq!(find_objects_init(&mut s, &t), ReturnValue::Success);
    assert_eq!(find_objects(&mut s, 10), vec![2]);
    assert_eq!(find_objects(&mut s, 10), Vec::<usize>::new());
}

#[test]
fn find_template_errors() {
    let mut s = session();
    assert_eq!(find_objects_init(&mut s, &vec![class(1)]), ReturnValue::AttributeValueInvalid);
    assert_eq!(find_objects_init(&mut s, &vec![id(&[0xff, 0xfe])]), ReturnValue::AttributeValueInvalid);
    assert_eq!(
        find_objects_init(&mut s, &vec![TemplateAttribute { kind: 0x0001, value: vec![] }]),
        ReturnValue::AttributeTypeInvalid
    );
}

#[test]
fn find_without_class_finds_nothing() {
    let mut s = session();
    assert_eq!(find_objects_init(&mut s, &vec![]), ReturnValue::Success);
    assert_eq!(find_objects(&mut s, 3), Vec::<usize>::new());
}

#[test]
fn find_objects_in_batches() {
    let mut s = session();
    assert_eq!(find_objects_init(&mut s, &vec![class(3)]), ReturnValue::Success);
    assert_eq!(find_objects(&mut s, 2), vec![0, 1]);
    assert_eq!(find_objects(&mut s, 2), vec![2]);
    assert_eq!(find_objects(&mut s, 0), Vec::<usize>::new());
}

#[test]
fn sign_init_checks_mechanism_and_key() {
    let mut s = session();
    assert_eq!(sign_init(&mut s, 0x1041, 0), ReturnValue::KeyTypeInconsistent);
    assert!(s.get_sign_key().is_none());
    assert_eq!(sign_init(&mut s, 0x0001, 1), ReturnValue::KeyTypeInconsistent);
    assert_eq!(sign_init(&mut s, 0x0001, 9), ReturnValue::KeyHandleInvalid);
    assert_eq!(sign_init(&mut s, 0x0040, 0), ReturnValue::MechanismInvalid);
    assert_eq!(sign_init(&mut s, 0x1041, 1), ReturnValue::Success);
    assert_eq!(s.get_sign_key().unwrap().label(), "b");
    assert_eq!(sign_init(&mut s, 0x0001, 2), ReturnValue::Success);
    assert_eq!(s.get_sign_key().unwrap().label(), "c");
}

#[test]
fn sign_answer_buffer_handling() {
    let k = rsa("a");
    let raw = Some(vec![9u8; 5]);
    let a = sign_answer(&k, &raw, None);
    assert_eq!((a.status, a.length), (ReturnValue::Success, 5));
    assert!(a.signature.is_none());
    let a = sign_answer(&k, &raw, Some(4));
    assert_eq!((a.status, a.length), (ReturnValue::BufferTooSmall, 5));
    assert!(a.signature.is_none());
    let a = sign_answer(&k, &raw, Some(5));
    assert_eq!((a.status, a.length), (ReturnValue::Success, 5));
    assert_eq!(a.signature, Some(vec![9u8; 5]));
}

#[test]
fn sign_answer_failures() {
    let k = rsa("a");
    assert_eq!(sign_answer(&k, &None, Some(10)).status, ReturnValue::GeneralError);
    assert_eq!(sign_answer(&k, &Some(vec![]), None).status, ReturnValue::GeneralError);
    let e = ec("b");
    assert_eq!(sign_answer(&e, &Some(vec![1, 2]), None).status, ReturnValue::GeneralError);
}

#[test]
fn ec_null_buffer_length_is_fixed() {
    let e = ec("b");
    let first = sign_answer(&e, &Some(der_signature(&[0x01], &[0x02])), None);
    let second = sign_answer(&e, &Some(der_signature(&[0x7f; 32], &[0x00, 0x80])), Some(64));
    assert_eq!(first.length, 64);
    assert_eq!(second.length, 64);
    assert_eq!(second.signature.unwrap().len(), 64);
}

#[test]
fn table_codes() {
    assert_eq!(ReturnValue::Success.code(), 0);
    assert_eq!(ReturnValue::BufferTooSmall.code(), 0x150);
    assert_eq!(ReturnValue::from_code(0x63), Some(ReturnValue::KeyTypeInconsistent));
    assert_eq!(ReturnValue::from_code(0x4), None);
    assert_eq!(ReturnValue::VendorDefined.code(), 0x8000_0000);
    assert_eq!(KeyType::Ec.code(), 3);
    assert_eq!(KeyType::from_code(0x1f), Some(KeyType::Aes));
    assert_eq!(ObjectClass::from_code(2), Some(ObjectClass::PublicKey));
    assert_eq!(ObjectClass::from_code(9), None);
    assert_eq!(CertificateCategory::Authority.code(), 2);
    assert_eq!(CertificateType::from_code(0x8000_0000), Some(CertificateType::VendorDefined));
    assert_eq!(HardwareFeatureType::Clock.code(), 2);
    assert_eq!(KeyDerivationFunction::from_code(0), None);
    assert_eq!(MaskGenerationFunction::Mgf1Sha224.code(), 5);
    assert_eq!(Notification::OtpChanged.code(), 1);
    assert_eq!(PseudoRandomFunction::from_code(8), Some(PseudoRandomFunction::Pkcs5Pbkd2HmacSha512256));
    assert_eq!(SecurityDomain::ThirdParty.code(), 3);
    assert_eq!(SessionState::from_code(4), Some(SessionState::RwSoFunctions));
    assert_eq!(UserType::ContextSpecific.code(), 2);
    assert_eq!(Format::from_code(3), Some(Format::Binary));
    assert_eq!(Param::Mandatory.code(), 2);
}

#[test]
fn attribute_placement() {
    let p = place_attribute(5, None);
    assert_eq!((p.length, p.copy, p.too_small), (5, false, false));
    let p = place_attribute(5, Some(4));
    assert_eq!((p.length, p.copy, p.too_small), (u64::MAX, false, true));
    let p = place_attribute(5, Some(5));
    assert_eq!((p.length, p.copy, p.too_small), (5, true, false));
    assert_eq!(attributes_status(ReturnValue::Success, true), ReturnValue::BufferTooSmall);
    assert_eq!(attributes_status(ReturnValue::AttributeTypeInvalid, true), ReturnValue::AttributeTypeInvalid);
    assert_eq!(attributes_status(ReturnValue::Success, false), ReturnValue::Success);
}
