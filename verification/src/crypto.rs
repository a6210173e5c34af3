//! Device keys: the ed25519 key pair that signs manager requests, and the
//! check-in credentials derived from it.
use vstd::prelude::*;
use crate::hexfmt::hex_lower;
use ed25519_dalek::Signer as _;
use ed25519_dalek::Verifier as _;

verus! {

/// Whether 32 bytes are the compressed form of a point on the curve, which
/// is what `ed25519_dalek::PublicKey::from_bytes` checks.
pub uninterp spec fn ed25519_point_decodes(bytes: Seq<u8>) -> bool;

/// The public key that `ed25519_dalek` derives from a secret key.
pub uninterp spec fn ed25519_public_of(secret: Seq<u8>) -> Seq<u8>;

/// The signature that a key pair (secret then public, 64 bytes) makes on a message.
pub uninterp spec fn ed25519_signature_of(keypair: Seq<u8>, message: Seq<u8>) -> Seq<u8>;

/// Whether a public key accepts a signature on a message.
pub uninterp spec fn ed25519_accepts(public_key: Seq<u8>, message: Seq<u8>, signature: Seq<u8>) -> bool;

/// The digest that `crypto_hash` computes.
pub uninterp spec fn hash_digest(algorithm: HashAlgorithm, data: Seq<u8>) -> Seq<u8>;

/// The hash functions the device uses.
#[derive(Clone, Copy, PartialEq, Eq, Debug)]
pub enum HashAlgorithm {
    Sha256,
    Sha512,
}

/// The length of the lower-case hex digest.
pub open spec fn hex_digest_len(algorithm: HashAlgorithm) -> nat {
    match algorithm {
        HashAlgorithm::Sha256 => 64,
        HashAlgorithm::Sha512 => 128,
    }
}

/// A signature that `ed25519::Signature::from_bytes` accepts: 64 bytes whose
/// last byte has its three highest bits clear.
pub open spec fn signature_well_formed(sig: Seq<u8>) -> bool {
    sig.len() == 64 && sig[63] & 0xe0u8 == 0
}

/// A public key that `ed25519_dalek::PublicKey::from_bytes` accepts.
pub open spec fn public_key_well_formed(key: Seq<u8>) -> bool {
    key.len() == 32 && ed25519_point_decodes(key)
}

/// `ed25519_dalek::PublicKey::from_bytes(bytes).is_ok()`: the length is 32
/// and the bytes decode to a curve point (the latter left to a name).
#[verifier::external_body]
pub(crate) fn public_key_parses(bytes: &[u8]) -> (res: bool)
    ensures
        res == (bytes@.len() == 32 && ed25519_point_decodes(bytes@)),
{
    ed25519_dalek::PublicKey::from_bytes(bytes).is_ok()
}

/// `ed25519_dalek::Signature::from_bytes(bytes).is_ok()`, which checks the
/// length and the three high bits of the last byte.
#[verifier::external_body]
pub(crate) fn signature_parses(bytes: &[u8]) -> (res: bool)
    ensures
        res == signature_well_formed(bytes@),
{
    ed25519_dalek::Signature::from_bytes(bytes).is_ok()
}

/// `PublicKey::from(&SecretKey)`: the public key of a 32-byte secret key. The
/// result is 32 bytes that decode to a curve point (a compressed point that
/// the library produced itself).
#[verifier::external_body]
fn ed25519_derive_public(secret: &[u8]) -> (res: Vec<u8>)
    requires
        secret@.len() == 32,
    ensures
        res@ == ed25519_public_of(secret@),
        public_key_well_formed(res@),
{
    let secret = ed25519_dalek::SecretKey::from_bytes(secret).unwrap();
    ed25519_dalek::PublicKey::from(&secret).to_bytes().to_vec()
}

/// `Keypair::sign` on the key pair given by its 64 bytes. Signing is
/// deterministic, so the signature is named by key pair and message. It is
/// 64 bytes in the form `Signature::from_bytes` accepts (the library itself
/// converts it through that function), and when the public half was derived
/// from the secret half, the public key accepts it (the library's documented
/// sign-then-verify behaviour).
#[verifier::external_body]
fn ed25519_sign(keypair: &[u8], message: &[u8]) -> (res: Vec<u8>)
    requires
        keypair@.len() == 64,
        public_key_well_formed(keypair@.subrange(32, 64)),
    ensures
        res@ == ed25519_signature_of(keypair@, message@),
        signature_well_formed(res@),
        keypair@.subrange(32, 64) == ed25519_public_of(keypair@.subrange(0, 32))
            ==> ed25519_accepts(keypair@.subrange(32, 64), message@, res@),
{
    let pair = ed25519_dalek::Keypair::from_bytes(keypair).unwrap();
    pair.sign(message).to_bytes().to_vec()
}

/// `PublicKey::verify(message, signature).is_ok()` on a well-formed key and
/// signature given by their bytes.
#[verifier::external_body]
fn ed25519_verify(public_key: &[u8], message: &[u8], signature: &[u8]) -> (res: bool)
    requires
        public_key_well_formed(public_key@),
        signature_well_formed(signature@),
    ensures
        res == ed25519_accepts(public_key@, message@, signature@),
{
    let key = ed25519_dalek::PublicKey::from_bytes(public_key).unwrap();
    let sig = ed25519_dalek::Signature::from_bytes(signature).unwrap();
    key.verify(message, &sig).is_ok()
}

/// `crypto_hash::hex_digest`: the lower-case hex text of the digest (64
/// characters for SHA-256, 128 for SHA-512).
#[verifier::external_body]
pub fn hex_digest(algorithm: HashAlgorithm, data: &[u8]) -> (res: String)
    ensures
        res@ == hex_lower(hash_digest(algorithm, data@)),
        res@.len() == hex_digest_len(algorithm),
{
    let algorithm = match algorithm {
        HashAlgorithm::Sha256 => crypto_hash::Algorithm::SHA256,
        HashAlgorithm::Sha512 => crypto_hash::Algorithm::SHA512,
    };
    crypto_hash::hex_digest(algorithm, data)
}

/// Whether a public key is well formed and accepts a signature on a message,
/// as the manager server checks it. A signature that is not well formed is
/// rejected without consulting the key.
pub fn verify_signature(public_key: &[u8], message: &[u8], signature: &[u8]) -> (res: bool)
    ensures
        res == (public_key_well_formed(public_key@) && signature_well_formed(signature@)
            && ed25519_accepts(public_key@, message@, signature@)),
{
    if !public_key_parses(public_key) {
        return false;
    }
    if !signature_parses(signature) {
        return false;
    }
    ed25519_verify(public_key, message, signature)
}

/// Key pair bytes that `Keypair::from_bytes` reads: 64 bytes whose public
/// half (the last 32) is a curve point.
pub open spec fn keypair_bytes_loadable(bytes: Seq<u8>) -> bool {
    bytes.len() == 64 && public_key_well_formed(bytes.subrange(32, 64))
}

/// The credentials this device logs in to the check-in service with.
pub struct APICredentials {
    pub username: String,
    pub password: String,
}

/// The device's signing key pair, kept as its 64 bytes (secret, then public).
pub struct Signer {
    keypair: Vec<u8>,
}

impl Signer {
    /// The bytes are a key pair that `Keypair::from_bytes` accepts.
    #[verifier::type_invariant]
    spec fn well_formed(self) -> bool {
        &&& self.keypair@.len() == 64
        &&& public_key_well_formed(self.keypair@.subrange(32, 64))
    }

    pub closed spec fn keypair_bytes(self) -> Seq<u8> {
        self.keypair@
    }

    pub open spec fn secret_bytes(self) -> Seq<u8> {
        self.keypair_bytes().subrange(0, 32)
    }

    pub open spec fn public_bytes(self) -> Seq<u8> {
        self.keypair_bytes().subrange(32, 64)
    }

    /// The public half was derived from the secret half.
    pub open spec fn is_consistent(self) -> bool {
        self.public_bytes() == ed25519_public_of(self.secret_bytes())
    }

    /// The key pair stored as 64 bytes, as `Keypair::from_bytes` reads them:
    /// `None` unless there are 64 bytes whose public half is a curve point.
    pub fn from_keypair_bytes(bytes: &[u8]) -> (res: Option<Signer>)
        ensures
            res is Some <==> keypair_bytes_loadable(bytes@),
            res matches Some(s) ==> s.keypair_bytes() == bytes@,
    {
        if bytes.len() != 64 {
            return None;
        }
        let mut keypair: Vec<u8> = Vec::new();
        let mut i: usize = 0;
        while i < 64
            invariant
                bytes@.len() == 64,
                i <= 64,
                keypair@ == bytes@.subrange(0, i as int),
            decreases 64 - i,
        {
            keypair.push(bytes[i]);
            i = i + 1;
        }
        assert(keypair@ == bytes@);
        let public = slice_tail(&keypair, 32);
        if !public_key_parses(&public) {
            return None;
        }
        Some(Signer { keypair })
    }

    /// A key pair made from a secret key, with its public key derived from it.
    pub fn from_secret(secret: &[u8; 32]) -> (res: Signer)
        ensures
            res.secret_bytes() == secret@,
            res.is_consistent(),
    {
        let public = ed25519_derive_public(secret);
        let mut keypair: Vec<u8> = Vec::new();
        let mut i: usize = 0;
        while i < 32
            invariant
                i <= 32,
                keypair@ == secret@.subrange(0, i as int),
            decreases 32 - i,
        {
            keypair.push(secret[i]);
            i = i + 1;
        }
        let mut j: usize = 0;
        while j < 32
            invariant
                j <= 32,
                public@.len() == 32,
                keypair@ == secret@ + public@.subrange(0, j as int),
            decreases 32 - j,
        {
            keypair.push(public[j]);
            j = j + 1;
        }
        assert(keypair@.subrange(0, 32) == secret@);
        assert(keypair@.subrange(32, 64) == public@);
        Signer { keypair }
    }

    /// The 64 bytes of the key pair, as they are stored.
    pub fn to_bytes(&self) -> (res: Vec<u8>)
        ensures
            res@ == self.keypair_bytes(),
            keypair_bytes_loadable(res@),
    {
        proof { use_type_invariant(self); }
        self.keypair.clone()
    }

    /// Signs a message with the key pair.
    pub fn sign(&self, message: &[u8]) -> (res: Vec<u8>)
        ensures
            res@ == ed25519_signature_of(self.keypair_bytes(), message@),
            signature_well_formed(res@),
            self.is_consistent() ==> ed25519_accepts(self.public_bytes(), message@, res@),
    {
        proof { use_type_invariant(self); }
        ed25519_sign(&self.keypair, message)
    }

    /// Whether this key pair's public key accepts a signature on a message.
    pub fn verify(&self, message: &[u8], signature: &[u8]) -> (res: bool)
        ensures
            res == (signature_well_formed(signature@)
                && ed25519_accepts(self.public_bytes(), message@, signature@)),
    {
        proof { use_type_invariant(self); }
        let public = slice_tail(&self.keypair, 32);
        verify_signature(&public, message, signature)
    }

    /// The 32 bytes of the public key.
    pub fn get_public_key(&self) -> (res: Vec<u8>)
        ensures
            res@ == self.public_bytes(),
            public_key_well_formed(res@),
    {
        proof { use_type_invariant(self); }
        slice_tail(&self.keypair, 32)
    }

    /// The check-in credentials of this device: the username is the SHA-256
    /// of the public key and the password the SHA-512 of the secret key, both
    /// in lower-case hex.
    pub fn get_api_credentials(&self) -> (res: APICredentials)
        ensures
            res.username@ == hex_lower(hash_digest(HashAlgorithm::Sha256, self.public_bytes())),
            res.password@ == hex_lower(hash_digest(HashAlgorithm::Sha512, self.secret_bytes())),
            res.username@.len() == 64,
            res.password@.len() == 128,
    {
        proof { use_type_invariant(self); }
        let public = slice_tail(&self.keypair, 32);
        let secret = slice_head(&self.keypair, 32);
        APICredentials {
            username: hex_digest(HashAlgorithm::Sha256, &public),
            password: hex_digest(HashAlgorithm::Sha512, &secret),
        }
    }
}

/// The bytes of `v` from index `from` on.
fn slice_tail(v: &[u8], from: usize) -> (res: Vec<u8>)
    requires
        from <= v@.len(),
    ensures
        res@ == v@.subrange(from as int, v@.len() as int),
{
    let mut out: Vec<u8> = Vec::new();
    let mut i = from;
    while i < v.len()
        invariant
            from <= i <= v@.len(),
            out@ == v@.subrange(from as int, i as int),
        decreases v@.len() - i,
    {
        out.push(v[i]);
        i = i + 1;
    }
    out
}

/// The first `to` bytes of `v`.
fn slice_head(v: &[u8], to: usize) -> (res: Vec<u8>)
    requires
        to <= v@.len(),
    ensures
        res@ == v@.subrange(0, to as int),
{
    let mut out: Vec<u8> = Vec::new();
    let mut i: usize = 0;
    while i < to
        invariant
            i <= to <= v@.len(),
            out@ == v@.subrange(0, i as int),
        decreases to - i,
    {
        out.push(v[i]);
        i = i + 1;
    }
    out
}

} // verus!
