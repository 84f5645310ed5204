use tergent::agent::{
    begin_sign, failure_frame, finish_sign, load_all, message_kind, read_request, write_ec_response,
    write_list_response,
    write_rsa_response, IdentityCache, Request, SignStart,
};
use tergent::bridge::{sign, sign_output, unlock_output, BackendAction, BackendEvent, SignOutput, SignPhase};
use tergent::identity::{from_ec, from_rsa, Algorithm, Curve};

fn hex_of(b: &[u8]) -> String {
    b.iter().map(|x| format!("{:02x}", x)).collect()
}

fn listing() -> String {
    format!(
        "[{{\"alias\":\"rsa1\",\"algorithm\":\"RSA\",\"size\":2048,\"modulus\":\"{}\",\"exponent\":\"010001\"}},\
         {{\"alias\":\"ec1\",\"algorithm\":\"EC\",\"size\":256,\"x\":\"{}\",\"y\":\"{}\"}}]",
        hex_of(&[0xC1u8; 4]),
        hex_of(&[0x33u8; 32]),
        hex_of(&[0x44u8; 32])
    )
}

fn loaded() -> IdentityCache {
    let mut cache = IdentityCache::new();
    assert!(load_all(&mut cache, &listing()));
    cache
}

fn be(n: u32) -> Vec<u8> {
    n.to_be_bytes().to_vec()
}

fn sign_payload(blob: &[u8], data: &[u8], flags: u32) -> Vec<u8> {
    let mut p = be(blob.len() as u32);
    p.extend_from_slice(blob);
    p.extend_from_slice(&be(data.len() as u32));
    p.extend_from_slice(data);
    p.extend_from_slice(&be(flags));
    p
}

#[test]
fn failure_frame_bytes() {
    assert_eq!(failure_frame(), vec![0, 0, 0, 1, 5]);
}

#[test]
fn message_kinds() {
    assert_eq!(message_kind(11), Request::ListIdentities);
    assert_eq!(message_kind(13), Request::Sign);
    assert_eq!(message_kind(17), Request::Unsupported);
    assert_eq!(message_kind(0), Request::Unsupported);
}

#[test]
fn load_all_rebuilds_cache() {
    let mut cache = loaded();
    assert_eq!(cache.len(), 2);
    assert!(load_all(&mut cache, "[]"));
    assert_eq!(cache.len(), 0);
}

#[test]
fn load_all_failure_keeps_cache() {
    let mut cache = loaded();
    assert!(!load_all(&mut cache, "garbage"));
    assert_eq!(cache.len(), 2);
}

#[test]
fn identities_answer_layout() {
    let cache = loaded();
    let frame = write_list_response(&cache).unwrap();
    let rsa = from_rsa(&[0xC1u8; 4]);
    let ec = from_ec(Curve::P256, &[0x33u8; 32], &[0x44u8; 32]);
    let mut body = vec![12u8];
    body.extend_from_slice(&be(2));
    body.extend_from_slice(&be(rsa.len() as u32));
    body.extend_from_slice(&rsa);
    body.extend_from_slice(&be(4));
    body.extend_from_slice(b"rsa1");
    body.extend_from_slice(&be(ec.len() as u32));
    body.extend_from_slice(&ec);
    body.extend_from_slice(&be(3));
    body.extend_from_slice(b"ec1");
    let mut expected = be(body.len() as u32);
    expected.extend_from_slice(&body);
    assert_eq!(frame, expected);
}

#[test]
fn empty_identities_answer() {
    let cache = IdentityCache::new();
    assert_eq!(write_list_response(&cache).unwrap(), vec![0, 0, 0, 5, 12, 0, 0, 0, 0]);
}

#[test]
fn find_by_blob() {
    let cache = loaded();
    let ec = from_ec(Curve::P256, &[0x33u8; 32], &[0x44u8; 32]);
    assert_eq!(cache.find(&ec), Some(1));
    assert_eq!(cache.find(&[1, 2, 3]), None);
}

#[test]
fn read_request_finds_key() {
    let cache = loaded();
    let blob = from_rsa(&[0xC1u8; 4]);
    let req = read_request(&cache, &sign_payload(&blob, b"hello", 4)).unwrap();
    assert_eq!(req.key().alias, "rsa1");
    assert_eq!(req.key().algorithm, Algorithm::Rsa);
    assert_eq!(req.data(), b"hello");
    assert_eq!(req.keystore_name(), "SHA512withRSA");
    assert_eq!(req.ssh_name(), "rsa-sha2-512");
}

#[test]
fn rsa_names_follow_flags() {
    let cache = loaded();
    let blob = from_rsa(&[0xC1u8; 4]);
    let r = read_request(&cache, &sign_payload(&blob, b"", 0)).unwrap();
    assert_eq!((r.keystore_name(), r.ssh_name()), ("SHA1withRSA", "ssh-rsa"));
    let r = read_request(&cache, &sign_payload(&blob, b"", 2)).unwrap();
    assert_eq!((r.keystore_name(), r.ssh_name()), ("SHA256withRSA", "rsa-sha2-256"));
    let r = read_request(&cache, &sign_payload(&blob, b"", 6)).unwrap();
    assert_eq!((r.keystore_name(), r.ssh_name()), ("SHA256withRSA", "rsa-sha2-256"));
}

#[test]
fn ec_names_ignore_flags() {
    let cache = loaded();
    let blob = from_ec(Curve::P256, &[0x33u8; 32], &[0x44u8; 32]);
    let r = read_request(&cache, &sign_payload(&blob, b"x", 2)).unwrap();
    assert_eq!((r.keystore_name(), r.ssh_name()), ("SHA256withECDSA", "ecdsa-sha2-nistp256"));
}

#[test]
fn unknown_blob_gets_failure_frame() {
    let cache = loaded();
    let payload = sign_payload(&[9, 9, 9], b"data", 0);
    assert!(read_request(&cache, &payload).is_none());
    match begin_sign(&cache, &payload) {
        SignStart::Reply(f) => assert_eq!(f, vec![0, 0, 0, 1, 5]),
        SignStart::Ask(_) => panic!("an unknown key must not reach the backend"),
    }
}

#[test]
fn short_payload_gets_failure_frame() {
    let cache = loaded();
    let blob = from_rsa(&[0xC1u8; 4]);
    let mut payload = sign_payload(&blob, b"data", 0);
    payload.truncate(payload.len() - 1);
    match begin_sign(&cache, &payload) {
        SignStart::Reply(f) => assert_eq!(f, failure_frame()),
        SignStart::Ask(_) => panic!("a cut payload must be refused"),
    }
    assert!(read_request(&cache, &[0, 0]).is_none());
}

#[test]
fn rsa_sign_response_layout() {
    let frame = write_rsa_response(b"rsa-sha2-256", &[7, 7, 7]);
    let mut expected = be(4 + 12 + 4 + 3 + 4 + 1);
    expected.push(14);
    expected.extend_from_slice(&be(4 + 12 + 4 + 3));
    expected.extend_from_slice(&be(12));
    expected.extend_from_slice(b"rsa-sha2-256");
    expected.extend_from_slice(&be(3));
    expected.extend_from_slice(&[7, 7, 7]);
    assert_eq!(frame, expected);
}

#[test]
fn ec_sign_response_uses_minimal_integers() {
    let der = vec![0x30, 0x08, 0x02, 0x02, 0x00, 0x81, 0x02, 0x02, 0x01, 0x02];
    let frame = write_ec_response(b"ecdsa-sha2-nistp256", &der).unwrap();
    let mut sig = be(2);
    sig.extend_from_slice(&[0x00, 0x81]);
    sig.extend_from_slice(&be(2));
    sig.extend_from_slice(&[0x01, 0x02]);
    let mut inner = be(19);
    inner.extend_from_slice(b"ecdsa-sha2-nistp256");
    inner.extend_from_slice(&be(sig.len() as u32));
    inner.extend_from_slice(&sig);
    let mut body = vec![14u8];
    body.extend_from_slice(&be(inner.len() as u32));
    body.extend_from_slice(&inner);
    let mut expected = be(body.len() as u32);
    expected.extend_from_slice(&body);
    assert_eq!(frame, expected);
}

#[test]
fn ec_sign_response_refuses_bad_der() {
    assert!(write_ec_response(b"ecdsa-sha2-nistp256", &[1, 2, 3]).is_none());
}

#[test]
fn finish_sign_cases() {
    let cache = loaded();
    let blob = from_rsa(&[0xC1u8; 4]);
    let req = read_request(&cache, &sign_payload(&blob, b"d", 0)).unwrap();
    assert_eq!(finish_sign(&req, &None), failure_frame());
    assert_eq!(finish_sign(&req, &Some(vec![])), failure_frame());
    assert_eq!(finish_sign(&req, &Some(vec![5, 6])), write_rsa_response(b"ssh-rsa", &[5, 6]));
}

#[test]
fn sign_output_reads_base64() {
    assert!(matches!(sign_output(&Some("AQID".to_string())), SignOutput::Signature(s) if s == vec![1, 2, 3]));
    assert!(matches!(sign_output(&Some(String::new())), SignOutput::Declined));
    assert!(matches!(sign_output(&Some("!!".to_string())), SignOutput::Failed));
    assert!(matches!(sign_output(&None), SignOutput::Failed));
}

#[test]
fn unlock_output_reads_result() {
    assert!(unlock_output(&Some("{\"auth_result\":\"AUTH_RESULT_SUCCESS\"}".to_string())));
    assert!(!unlock_output(&Some("{\"auth_result\":\"AUTH_RESULT_FAILURE\"}".to_string())));
    assert!(!unlock_output(&Some("{\"other\":1}".to_string())));
    assert!(!unlock_output(&Some("nope".to_string())));
    assert!(!unlock_output(&None));
}

#[test]
fn two_declines_make_one_unlock() {
    let mut phase = SignPhase::Start;
    assert!(matches!(sign(&mut phase, BackendEvent::Begin), BackendAction::Sign));
    assert!(matches!(sign(&mut phase, BackendEvent::SignReturned(Some(String::new()))), BackendAction::Unlock));
    let ok = "{\"auth_result\":\"AUTH_RESULT_SUCCESS\"}".to_string();
    assert!(matches!(sign(&mut phase, BackendEvent::UnlockReturned(Some(ok))), BackendAction::Sign));
    assert!(matches!(sign(&mut phase, BackendEvent::SignReturned(Some(String::new()))), BackendAction::Finish(None)));
    assert_eq!(phase, SignPhase::Done);
    assert!(matches!(sign(&mut phase, BackendEvent::SignReturned(Some("AQID".to_string()))), BackendAction::Finish(None)));
}

#[test]
fn first_signature_finishes() {
    let mut phase = SignPhase::Start;
    sign(&mut phase, BackendEvent::Begin);
    assert!(matches!(sign(&mut phase, BackendEvent::SignReturned(Some("AQID".to_string()))), BackendAction::Finish(Some(s)) if s == vec![1, 2, 3]));
}

#[test]
fn failed_unlock_finishes_without_signature() {
    let mut phase = SignPhase::Start;
    sign(&mut phase, BackendEvent::Begin);
    sign(&mut phase, BackendEvent::SignReturned(Some(String::new())));
    assert!(matches!(sign(&mut phase, BackendEvent::UnlockReturned(None)), BackendAction::Finish(None)));
}

#[test]
fn transport_failure_is_not_retried() {
    let mut phase = SignPhase::Start;
    sign(&mut phase, BackendEvent::Begin);
    assert!(matches!(sign(&mut phase, BackendEvent::SignReturned(None)), BackendAction::Finish(None)));
}
