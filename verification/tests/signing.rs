use checkin_embedded::auth::{check_authorization, check_body, is_json_media_type, SignedRequestError};
use checkin_embedded::crypto::{hex_digest, verify_signature, HashAlgorithm, Signer};
use checkin_embedded::hexfmt::{hex_decode, hex_encode};
use checkin_embedded::manager::{get_name, sign_request};

const SECRET: &str = "9d61b19deffd5a60ba844af492ec2cc44449c5697b326919703bac031cae7f60";
const PUBLIC: &str = "d75a980182b10ab7d54bfed3c964073a0ee172f3daa62325af021a68f707511a";
const EMPTY_SIGNATURE: &str = "e5564300c360ac729086e2cc806e828a84877f1eb8e5d974d873e065224901555fb8821590a33bacc61e39701cf9b46bd25bf5f0595bbe24655141438e7a100b";

fn secret() -> [u8; 32] {
    let bytes = hex_decode(SECRET).unwrap();
    let mut s = [0u8; 32];
    s.copy_from_slice(&bytes);
    s
}

#[test]
fn hex_encodes_lower_case() {
    assert_eq!(hex_encode(&[0x00, 0x0f, 0xab, 0xff]), "000fabff");
    assert_eq!(hex_encode(&[]), "");
}

#[test]
fn hex_decodes_either_case() {
    assert_eq!(hex_decode("000FabfF"), Some(vec![0x00, 0x0f, 0xab, 0xff]));
    assert_eq!(hex_decode("abc"), None);
    assert_eq!(hex_decode("zz"), None);
    assert_eq!(hex_decode(""), Some(vec![]));
}

#[test]
fn secret_derives_known_public_key() {
    let signer = Signer::from_secret(&secret());
    assert_eq!(hex_encode(&signer.get_public_key()), PUBLIC);
    let bytes = signer.to_bytes();
    assert_eq!(bytes.len(), 64);
    assert_eq!(hex_encode(&bytes[..32]), SECRET);
}

#[test]
fn signs_known_vector() {
    let signer = Signer::from_secret(&secret());
    let sig = signer.sign(b"");
    assert_eq!(hex_encode(&sig), EMPTY_SIGNATURE);
    assert!(signer.verify(b"", &sig));
    assert!(!signer.verify(b"x", &sig));
}

#[test]
fn keypair_bytes_roundtrip() {
    let signer = Signer::from_secret(&secret());
    let again = Signer::from_keypair_bytes(&signer.to_bytes()).unwrap();
    assert_eq!(again.to_bytes(), signer.to_bytes());
    assert!(Signer::from_keypair_bytes(&[0u8; 63]).is_none());
}

#[test]
fn verify_rejects_malformed_signature() {
    let public = hex_decode(PUBLIC).unwrap();
    let mut sig = hex_decode(EMPTY_SIGNATURE).unwrap();
    assert!(verify_signature(&public, b"", &sig));
    sig[63] |= 0xe0;
    assert!(!verify_signature(&public, b"", &sig));
    assert!(!verify_signature(&public[..31], b"", &sig));
}

#[test]
fn sha256_name_of_device() {
    assert_eq!(
        hex_digest(HashAlgorithm::Sha256, &[0u8; 32]),
        "66687aadf862bd776c8fc18b8e9f8e20089714856ee233b3902a591d0d5f2925"
    );
    let signer = Signer::from_secret(&secret());
    let name = get_name(&signer);
    assert_eq!(name.len(), 64);
    assert_eq!(name, hex_digest(HashAlgorithm::Sha256, &signer.get_public_key()));
    let creds = signer.get_api_credentials();
    assert_eq!(creds.username, name);
    assert_eq!(creds.password.len(), 128);
    assert_eq!(creds.password, hex_digest(HashAlgorithm::Sha512, &secret()));
}

#[test]
fn signed_request_is_accepted() {
    let signer = Signer::from_secret(&secret());
    let body = "{\n  \"username\": \"kiosk\"\n}".to_string();
    let signed = sign_request(&signer, body.clone());
    assert_eq!(signed.body, body);
    assert!(signed.header_value.starts_with(&format!("ed25519 {}/", PUBLIC)));
    let header = check_authorization(Some(&signed.header_value)).ok().unwrap();
    assert_eq!(header.public_key_text(), PUBLIC);
    assert_eq!(check_body(&header, Some(body.as_bytes())).unwrap(), PUBLIC);
    assert_eq!(check_body(&header, Some(b"tampered")).unwrap_err(), SignedRequestError::Invalid);
    assert_eq!(check_body(&header, None).unwrap_err(), SignedRequestError::InvalidBody);
}

#[test]
fn malformed_headers_are_refused() {
    let err = |h: Option<&str>| check_authorization(h).err().unwrap();
    assert_eq!(err(None), SignedRequestError::Missing);
    assert_eq!(err(Some("ed25519")), SignedRequestError::Invalid);
    assert_eq!(err(Some("Bearer abc/def")), SignedRequestError::Invalid);
    assert_eq!(err(Some(&format!("ed25519 {}", PUBLIC))), SignedRequestError::Invalid);
    assert_eq!(err(Some(&format!("ed25519 {}x/{}", PUBLIC, EMPTY_SIGNATURE))), SignedRequestError::Invalid);
    assert_eq!(err(Some(&format!("ed25519 {}/{}", PUBLIC, &EMPTY_SIGNATURE[2..]))), SignedRequestError::Invalid);
    // Extra pieces after the signature are ignored, as the header is split.
    assert!(check_authorization(Some(&format!("ed25519 {}/{}/more extra", PUBLIC, EMPTY_SIGNATURE))).is_ok());
}

#[test]
fn json_media_type_ignores_case() {
    assert!(is_json_media_type("application", "json"));
    assert!(is_json_media_type("Application", "JSON"));
    assert!(!is_json_media_type("text", "json"));
    assert!(!is_json_media_type("application", "jsonp"));
}

#[test]
fn authorization_header_format() {
    assert_eq!(
        checkin_embedded::manager::authorization_header(&[0xab, 0x01], &[0xff]),
        "ed25519 ab01/ff"
    );
}

#[test]
fn saved_key_loads_back() {
    let signer = Signer::from_secret(&secret());
    let saved = signer.to_bytes();
    let loaded = Signer::from_keypair_bytes(&saved).unwrap();
    assert_eq!(loaded.to_bytes(), saved);
    assert_eq!(hex_encode(&loaded.sign(b"m")), hex_encode(&signer.sign(b"m")));
    let creds = loaded.get_api_credentials();
    assert_eq!((creds.username.len(), creds.password.len()), (64, 128));
}
