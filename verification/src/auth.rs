//! The manager server's check of signed requests: the `Authorization` header
//! names the device's public key and carries its signature on the body.
use vstd::prelude::*;
use crate::crypto::{ed25519_accepts, public_key_well_formed, signature_well_formed, verify_signature};
use crate::hexfmt::{hex_bytes, hex_decodable, hex_decode, hex_lower, lemma_hex_lower_digits, lemma_hex_roundtrip};
use crate::text::{lemma_split_all_nonempty, equal, equal_ignoring_ascii_case, eq_ignore_ascii_case, lacks, lemma_split_all_two, split, split_all};

verus! {

/// Why a request is refused.
#[derive(Clone, Copy, Debug, PartialEq, Eq)]
pub enum SignedRequestError {
    Missing,
    Invalid,
    InvalidBody,
    Unauthorized,
}

/// A request body that came with a valid signature, with the signer's public
/// key as it was written in the header.
pub struct SignedRequest<T> {
    pub public_key: String,
    pub content: T,
}

/// The scheme word that starts the header.
pub open spec fn ed25519_scheme() -> Seq<char> {
    seq!['e', 'd', '2', '5', '5', '1', '9']
}

/// The header check, before the body is read: the header must be present;
/// split at spaces, its first piece must be the scheme word and a second
/// piece must follow; that piece, split at slashes, must have a first piece
/// (the public key) and a second (the signature), both hex text of a
/// well-formed key and signature. The result is the key as written, and the
/// key and signature bytes.
pub open spec fn header_check(authorization: Option<Seq<char>>) -> Result<(Seq<char>, Seq<u8>, Seq<u8>), SignedRequestError> {
    match authorization {
        None => Err(SignedRequestError::Missing),
        Some(h) => {
            let parts = split_all(h, ' ');
            if parts[0] != ed25519_scheme() || parts.len() < 2 {
                Err(SignedRequestError::Invalid)
            } else {
                let keys = split_all(parts[1], '/');
                if keys.len() < 2 {
                    Err(SignedRequestError::Invalid)
                } else if !hex_decodable(keys[0]) || !public_key_well_formed(hex_bytes(keys[0])) {
                    Err(SignedRequestError::Invalid)
                } else if !hex_decodable(keys[1]) || !signature_well_formed(hex_bytes(keys[1])) {
                    Err(SignedRequestError::Invalid)
                } else {
                    Ok((keys[0], hex_bytes(keys[0]), hex_bytes(keys[1])))
                }
            }
        },
    }
}

/// The whole check of a signed request: the header check, then the body
/// (`None` when it could not be read) must carry the signature.
pub open spec fn signed_request_check(authorization: Option<Seq<char>>, body: Option<Seq<u8>>) -> Result<Seq<char>, SignedRequestError> {
    match header_check(authorization) {
        Err(e) => Err(e),
        Ok((key_text, key, signature)) => match body {
            None => Err(SignedRequestError::InvalidBody),
            Some(b) => if ed25519_accepts(key, b, signature) {
                Ok(key_text)
            } else {
                Err(SignedRequestError::Invalid)
            },
        },
    }
}

/// The key and signature named by a header that passed the check.
pub struct SignedHeader {
    public_key_text: String,
    public_key: Vec<u8>,
    signature: Vec<u8>,
}

impl SignedHeader {
    #[verifier::type_invariant]
    spec fn well_formed(self) -> bool {
        public_key_well_formed(self.public_key@) && signature_well_formed(self.signature@)
    }

    pub closed spec fn parts(self) -> (Seq<char>, Seq<u8>, Seq<u8>) {
        (self.public_key_text@, self.public_key@, self.signature@)
    }

    /// The public key as written in the header.
    pub fn public_key_text(&self) -> (res: String)
        ensures
            res@ == self.parts().0,
    {
        self.public_key_text.clone()
    }
}

/// Whether a request's media type is JSON (`application/json`, compared
/// ignoring ASCII case, as the server's media types compare). Other requests
/// are passed on to other handlers.
pub fn is_json_media_type(top: &str, sub: &str) -> (res: bool)
    ensures
        res == (eq_ignore_ascii_case(top@, seq!['a', 'p', 'p', 'l', 'i', 'c', 'a', 't', 'i', 'o', 'n'])
            && eq_ignore_ascii_case(sub@, seq!['j', 's', 'o', 'n'])),
{
    proof {
        reveal_strlit("application");
        reveal_strlit("json");
    }
    equal_ignoring_ascii_case(top, "application") && equal_ignoring_ascii_case(sub, "json")
}

pub open spec fn str_option_view(s: Option<&str>) -> Option<Seq<char>> {
    match s {
        Some(a) => Some(a@),
        None => None,
    }
}

/// The header check of a signed request (see `header_check`).
pub fn check_authorization(authorization: Option<&str>) -> (res: Result<SignedHeader, SignedRequestError>)
    ensures
        header_check(str_option_view(authorization)) == match res {
            Ok(h) => Ok(h.parts()),
            Err(e) => Err(e),
        },
{
    let auth = match authorization {
        Some(a) => a,
        None => return Err(SignedRequestError::Missing),
    };
    let parts = split(auth, ' ');
    let ghost pv = parts@.map_values(|p: String| p@);
    proof { lemma_split_all_nonempty(auth@, ' '); }
    assert(pv.len() == parts@.len());
    assert(pv[0] == parts@[0]@);
    proof {
        reveal_strlit("ed25519");
        assert("ed25519"@ == ed25519_scheme());
    }
    if !equal(parts[0].as_str(), "ed25519") || parts.len() < 2 {
        return Err(SignedRequestError::Invalid);
    }
    assert(pv[1] == parts@[1]@);
    let keys = split(parts[1].as_str(), '/');
    let ghost kv = keys@.map_values(|p: String| p@);
    if keys.len() < 2 {
        return Err(SignedRequestError::Invalid);
    }
    assert(kv[0] == keys@[0]@ && kv[1] == keys@[1]@);
    let public_key = match hex_decode(keys[0].as_str()) {
        Some(k) => k,
        None => return Err(SignedRequestError::Invalid),
    };
    if !key_parses(&public_key) {
        return Err(SignedRequestError::Invalid);
    }
    let signature = match hex_decode(keys[1].as_str()) {
        Some(s) => s,
        None => return Err(SignedRequestError::Invalid),
    };
    if !signature_parses(&signature) {
        return Err(SignedRequestError::Invalid);
    }
    let public_key_text = keys[0].clone();
    Ok(SignedHeader { public_key_text, public_key, signature })
}

fn key_parses(bytes: &Vec<u8>) -> (res: bool)
    ensures
        res == public_key_well_formed(bytes@),
{
    crate::crypto::public_key_parses(bytes.as_slice())
}

fn signature_parses(bytes: &Vec<u8>) -> (res: bool)
    ensures
        res == signature_well_formed(bytes@),
{
    crate::crypto::signature_parses(bytes.as_slice())
}

/// The body check, once the body has been read (`None` when reading it
/// failed): on success, the public key as written in the header.
pub fn check_body(header: &SignedHeader, body: Option<&[u8]>) -> (res: Result<String, SignedRequestError>)
    ensures
        match (header.parts(), body) {
            ((text, key, sig), None) => res == Err::<String, SignedRequestError>(SignedRequestError::InvalidBody),
            ((text, key, sig), Some(b)) => match res {
                Ok(k) => ed25519_accepts(key, b@, sig) && k@ == text,
                Err(e) => !ed25519_accepts(key, b@, sig) && e == SignedRequestError::Invalid,
            },
        },
{
    proof { use_type_invariant(header); }
    let body = match body {
        Some(b) => b,
        None => return Err(SignedRequestError::InvalidBody),
    };
    if !verify_signature(header.public_key.as_slice(), body, header.signature.as_slice()) {
        return Err(SignedRequestError::Invalid);
    }
    Ok(header.public_key_text.clone())
}

/// The `Authorization` value that the device sends: the scheme word, a space,
/// the hex of its public key, a slash and the hex of its signature.
pub open spec fn authorization_value(public_key: Seq<u8>, signature: Seq<u8>) -> Seq<char> {
    ed25519_scheme() + seq![' '] + hex_lower(public_key) + seq!['/'] + hex_lower(signature)
}

/// A request signed by a device is accepted: the `Authorization` value built
/// from a well-formed public key and a signature that the key accepts on the
/// body passes the server's check, which reports the key in hex as the
/// device wrote it.
pub proof fn lemma_signed_request_accepted(public_key: Seq<u8>, signature: Seq<u8>, body: Seq<u8>)
    requires
        public_key_well_formed(public_key),
        signature_well_formed(signature),
        ed25519_accepts(public_key, body, signature),
    ensures
        signed_request_check(Some(authorization_value(public_key, signature)), Some(body))
            == Ok::<Seq<char>, SignedRequestError>(hex_lower(public_key)),
{
    let hk = hex_lower(public_key);
    let hs = hex_lower(signature);
    lemma_hex_lower_digits(public_key);
    lemma_hex_lower_digits(signature);
    lemma_hex_roundtrip(public_key);
    lemma_hex_roundtrip(signature);
    let keys = hk + seq!['/'] + hs;
    assert(lacks(ed25519_scheme(), ' '));
    assert(lacks(hk, ' ') && lacks(hk, '/')) by {
        assert forall|i: int| 0 <= i < hk.len() implies hk[i] != ' ' && hk[i] != '/' by {
            let c = hk[i];
            assert(('0' <= c && c <= '9') || ('a' <= c && c <= 'f'));
        }
    }
    assert(lacks(hs, ' ') && lacks(hs, '/')) by {
        assert forall|i: int| 0 <= i < hs.len() implies hs[i] != ' ' && hs[i] != '/' by {
            let c = hs[i];
            assert(('0' <= c && c <= '9') || ('a' <= c && c <= 'f'));
        }
    }
    assert(lacks(keys, ' ')) by {
        assert forall|i: int| 0 <= i < keys.len() implies keys[i] != ' ' by {
            if i < hk.len() {
                assert(keys[i] == hk[i]);
            } else if i > hk.len() {
                assert(keys[i] == hs[i - hk.len() - 1]);
            }
        }
    }
    assert(authorization_value(public_key, signature) == ed25519_scheme() + seq![' '] + keys);
    lemma_split_all_two(ed25519_scheme(), keys, ' ');
    lemma_split_all_two(hk, hs, '/');
}

} // verus!
