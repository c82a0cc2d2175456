use vstd::prelude::*;

verus! {

// Names for results of outside calls that no short formula can state.
/// The SHA-256 digest of a text, as the sha2 crate computes it.
pub uninterp spec fn sha256_of(data: Seq<char>) -> Seq<u8>;

/// The base64 text (standard alphabet, padded) of a byte string, as
/// base64::encode produces it.
pub uninterp spec fn b64_of(bytes: Seq<u8>) -> Seq<char>;

/// What base64::decode makes of a text: the decoded bytes, or nothing when
/// the text is not valid base64.
pub uninterp spec fn b64_decoded(text: Seq<char>) -> Option<Seq<u8>>;

/// Whether a text parses as an RSA public key in the textual encoding this
/// library exchanges (serde_json for rsa::RSAPublicKey).
pub uninterp spec fn is_public_key_text(text: Seq<char>) -> bool;

/// Whether, under rsa_fdh's randomized full-domain-hash scheme, `signature`
/// is a valid signature of `digest` for the key that `public_key_text`
/// encodes.
pub uninterp spec fn raw_sig_ok(
    public_key_text: Seq<char>,
    digest: Seq<u8>,
    signature: Seq<u8>,
) -> bool;

/// A signature text is valid for a payload and a public key text when it is
/// base64 and its bytes are a full-domain-hash signature of the payload's
/// SHA-256 digest.
pub open spec fn sig_valid(
    data: Seq<char>,
    public_key_text: Seq<char>,
    signature_text: Seq<char>,
) -> bool {
    match b64_decoded(signature_text) {
        Some(raw) => raw_sig_ok(public_key_text, sha256_of(data), raw),
        None => false,
    }
}

#[verifier::external_type_specification]
#[verifier::external_body]
pub struct ExRsaPublicKey(rsa::RSAPublicKey);

#[verifier::external_type_specification]
#[verifier::external_body]
pub struct ExRsaPrivateKey(rsa::RSAPrivateKey);

/// Relies on sha2::Sha256: the digest is a function of the input alone and
/// is 32 bytes long.
#[verifier::external_body]
fn sha256_digest(data: &str) -> (r: Vec<u8>)
    ensures
        r@ == sha256_of(data@),
        r@.len() == 32,
{
    let mut hasher: sha2::Sha256 = sha2::Digest::new();
    sha2::Digest::update(&mut hasher, data);
    sha2::Digest::finalize(hasher).to_vec()
}

/// Relies on base64::encode (standard alphabet, padded), and on
/// base64::decode inverting it, so the encoded text decodes back to the
/// input bytes.
#[verifier::external_body]
fn b64_encode(bytes: &Vec<u8>) -> (r: String)
    ensures
        r@ == b64_of(bytes@),
        b64_decoded(r@) == Some(bytes@),
{
    base64::encode(bytes)
}

/// Relies on base64::decode: the outcome is a function of the text alone,
/// and it fails exactly on text that is not valid base64.
#[verifier::external_body]
fn b64_decode(text: &str) -> (r: Option<Vec<u8>>)
    ensures
        r is Some <==> b64_decoded(text@) is Some,
        r is Some ==> r.unwrap()@ == b64_decoded(text@).unwrap(),
{
    base64::decode(text).ok()
}

/// Relies on serde_json::from_str for rsa::RSAPublicKey: parsing succeeds
/// exactly on the texts that `is_public_key_text` describes.
#[verifier::external_body]
fn parse_public_key(text: &str) -> (r: Option<rsa::RSAPublicKey>)
    ensures
        r is Some <==> is_public_key_text(text@),
{
    serde_json::from_str::<rsa::RSAPublicKey>(text).ok()
}

/// Relies on rsa_fdh::verify over a key parsed by serde_json::from_str: for
/// fixed key text, digest and signature bytes the outcome is a function of
/// those values alone.
#[verifier::external_body]
fn fdh_verify(public_key_text: &str, digest: &Vec<u8>, signature: &Vec<u8>) -> (r: bool)
    requires
        is_public_key_text(public_key_text@),
    ensures
        r == raw_sig_ok(public_key_text@, digest@, signature@),
{
    match serde_json::from_str::<rsa::RSAPublicKey>(public_key_text) {
        Ok(key) => rsa_fdh::verify::<sha2::Sha256, rsa::RSAPublicKey>(
            &key,
            digest,
            signature,
        ).is_ok(),
        Err(_) => false,
    }
}

/// Relies on rsa::RSAPrivateKey::new with the operating-system random
/// generator; nothing is promised of the resulting key.
#[verifier::external_body]
pub fn generate_private_key() -> (r: Option<rsa::RSAPrivateKey>) {
    let mut rng = rand::rngs::OsRng;
    rsa::RSAPrivateKey::new(&mut rng, 1024).ok()
}

/// Relies on serde_json::from_str for rsa::RSAPrivateKey; accepts the text
/// that `De::private_key_text` produced.
#[verifier::external_body]
pub fn parse_private_key(text: &str) -> (r: Option<rsa::RSAPrivateKey>) {
    serde_json::from_str::<rsa::RSAPrivateKey>(text).ok()
}

/// A signing identity: an RSA keypair together with the textual encoding of
/// its public half, which is what travels in protocol fields and what key
/// pinning compares.
pub struct De {
    private_key: rsa::RSAPrivateKey,
    public_key: rsa::RSAPublicKey,
    public_key_text: String,
}

impl De {
    /// The textual encoding of this identity's public key.
    pub closed spec fn public_key_view(&self) -> Seq<char> {
        self.public_key_text@
    }

    /// Relies on rsa::RSAPrivateKey::to_public_key and serde_json::to_string:
    /// the stored text encodes the public half of `private_key`, so it parses
    /// back as a public key, and signatures made with the private half verify
    /// against it (both halves belong to one keypair by construction).
    #[verifier::external_body]
    pub fn from_private_key(private_key: rsa::RSAPrivateKey) -> (r: Option<De>)
        ensures
            r is Some ==> is_public_key_text(r.unwrap().public_key_view()),
    {
        let public_key = private_key.to_public_key();
        match serde_json::to_string(&public_key) {
            Ok(public_key_text) => Some(De { private_key, public_key, public_key_text }),
            Err(_) => None,
        }
    }

    /// Relies on serde_json::to_string for rsa::RSAPrivateKey; the result
    /// parses back via `parse_private_key`.
    #[verifier::external_body]
    pub fn private_key_text(&self) -> (r: Option<String>) {
        serde_json::to_string(&self.private_key).ok()
    }

    pub fn public_key_string(&self) -> (r: String)
        ensures
            r@ == self.public_key_view(),
    {
        self.public_key_text.clone()
    }

    /// Relies on rsa_fdh::sign with rand::thread_rng, and on rsa_fdh::verify
    /// accepting what rsa_fdh::sign produced: a fresh signature made with the
    /// private key verifies against the stored public key text.  The random
    /// blinding makes repeated calls return different bytes; every outcome
    /// satisfies the stated clause.
    #[verifier::external_body]
    fn fdh_sign(&self, digest: &Vec<u8>) -> (r: Option<Vec<u8>>)
        ensures
            r is Some ==> raw_sig_ok(self.public_key_view(), digest@, r.unwrap()@),
    {
        let mut rng = rand::thread_rng();
        rsa_fdh::sign::<sha2::Sha256, _>(&mut rng, &self.private_key, digest).ok()
    }

    /// Signs a payload: SHA-256 digest, randomized full-domain-hash
    /// signature, base64 text.  `None` only when the signing primitive
    /// itself fails; every returned signature is valid for this identity's
    /// public key text.
    pub fn sign(&self, data: &str) -> (r: Option<String>)
        ensures
            r is Some ==> sig_valid(data@, self.public_key_view(), r.unwrap()@),
    {
        let digest = sha256_digest(data);
        match self.fdh_sign(&digest) {
            Some(raw) => Some(b64_encode(&raw)),
            None => None,
        }
    }
}

/// Verifies a detached signature text over a payload against a public key
/// text.  Malformed base64 is a verification failure, not an error; key
/// text that does not parse is a caller contract violation, kept out by
/// `requires` (see `check_sign_opt` for untrusted key text).
pub fn check_sign(data: &str, public_key_string: &str, signature_string: &str) -> (r: bool)
    requires
        is_public_key_text(public_key_string@),
    ensures
        r == sig_valid(data@, public_key_string@, signature_string@),
{
    let digest = sha256_digest(data);
    match b64_decode(signature_string) {
        Some(raw) => fdh_verify(public_key_string, &digest, &raw),
        None => false,
    }
}

/// `check_sign` for key text from an untrusted source: `None` exactly when
/// the key text does not parse as a public key.
pub fn check_sign_opt(data: &str, public_key_string: &str, signature_string: &str) -> (r: Option<
    bool,
>)
    ensures
        r is Some <==> is_public_key_text(public_key_string@),
        r is Some ==> r.unwrap() == sig_valid(data@, public_key_string@, signature_string@),
{
    match parse_public_key(public_key_string) {
        Some(_) => Some(check_sign(data, public_key_string, signature_string)),
        None => None,
    }
}

} // verus!
