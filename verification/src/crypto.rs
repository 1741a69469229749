//! Trusted boundary around the cryptographic primitives: an AEAD cipher
//! (AES-256-GCM), asymmetric key wrapping (RSA-OAEP over SHA-256), a
//! memory-hard password KDF (Argon2id) and a password verifier hash
//! (SHA-256). Each outside call sits behind one wrapper whose contract
//! states what the crate's source shows; results that are functions of
//! the arguments alone are given names that the rest of the library
//! reasons with.
use aes_gcm::aead::Aead;
use aes_gcm::KeyInit;
use rsa::pkcs8::DecodePrivateKey;
use rsa::pkcs8::DecodePublicKey;
use rsa::pkcs8::EncodePublicKey;
use sha2::Digest;
use vstd::prelude::*;

verus! {

/// Length in bytes of a data-encryption key (AES-256).
pub const DEK_LEN: usize = 32;

/// Length in bytes of an AES-GCM nonce.
pub const NONCE_LEN: usize = 12;

/// Length in bytes of a password salt.
pub const SALT_LEN: usize = 16;

/// Length in bytes of the password verifier (a SHA-256 digest).
pub const VERIFIER_LEN: usize = 32;

/// Largest plaintext the AEAD accepts, in bytes.
pub const AEAD_MAX_PLAINTEXT: u64 = 0x10_0000_0000;

/// The bytes that AES-256-GCM produces for a given key, nonce and
/// plaintext: the ciphertext with the 16-byte authentication tag
/// appended. Encryption is a function of these three arguments alone.
pub uninterp spec fn aead_seal_of(key: Seq<u8>, nonce: Seq<u8>, plaintext: Seq<u8>) -> Seq<u8>;

/// The 32-byte key that Argon2id (default parameters) derives from a
/// password and a salt; a function of the two arguments alone.
pub uninterp spec fn kdf_of(password: Seq<u8>, salt: Seq<u8>) -> Seq<u8>;

/// The SHA-256 digest of salt followed by password, stored as the
/// password verifier; a function of the two arguments alone.
pub uninterp spec fn verifier_of(password: Seq<u8>, salt: Seq<u8>) -> Seq<u8>;

/// What RSA-OAEP(SHA-256) decryption under the private key given as
/// PKCS#8 DER yields for a wrapped blob: the wrapped key, or `None`
/// when the key does not parse or the padding check fails. Decryption
/// is a function of the two arguments alone.
pub uninterp spec fn rsa_unwrap_of(sk_der: Seq<u8>, wrapped: Seq<u8>) -> Option<Seq<u8>>;

/// The SubjectPublicKeyInfo DER encoding of the public key belonging
/// to the private key given as PKCS#8 DER; DER is canonical, so this
/// is a function of the private key bytes alone.
pub uninterp spec fn rsa_pub_der_of(sk_der: Seq<u8>) -> Seq<u8>;

/// Relies on rand::RngCore::fill_bytes with the operating-system
/// generator: fills the buffer. Nothing is promised of the values;
/// two calls may return anything.
#[verifier::external_body]
pub(crate) fn random_bytes(n: usize) -> (r: Vec<u8>)
    ensures
        r@.len() == n,
{
    let mut buf = vec![0u8; n];
    rand::RngCore::fill_bytes(&mut rand::rngs::OsRng, &mut buf);
    buf
}

/// Relies on aes_gcm::Aes256Gcm (aead::Aead::encrypt): for a 32-byte
/// key and a 12-byte nonce it returns ciphertext plus appended 16-byte
/// tag, and fails only when the plaintext exceeds 2^36 bytes, which
/// the precondition rules out.
#[verifier::external_body]
pub(crate) fn aead_seal(key: &[u8], nonce: &[u8], plaintext: &[u8]) -> (r: Vec<u8>)
    requires
        key@.len() == DEK_LEN,
        nonce@.len() == NONCE_LEN,
        plaintext@.len() <= AEAD_MAX_PLAINTEXT,
    ensures
        r@ == aead_seal_of(key@, nonce@, plaintext@),
        r@.len() == plaintext@.len() + 16,
{
    let cipher = aes_gcm::Aes256Gcm::new(aes_gcm::Key::<aes_gcm::Aes256Gcm>::from_slice(key));
    cipher.encrypt(aes_gcm::Nonce::from_slice(nonce), plaintext).expect("plaintext within bounds")
}

/// Relies on aes_gcm::Aes256Gcm (aead::Aead::decrypt): it inverts
/// `encrypt` for the same key and nonce, and returns an error when the
/// authentication tag does not verify; so a success yields exactly the
/// sealed plaintext, and sealed input never fails.
#[verifier::external_body]
pub(crate) fn aead_open(key: &[u8], nonce: &[u8], sealed: &[u8]) -> (r: Result<Vec<u8>, ()>)
    requires
        key@.len() == DEK_LEN,
        nonce@.len() == NONCE_LEN,
    ensures
        r is Ok ==> sealed@ == aead_seal_of(key@, nonce@, r->Ok_0@),
        forall|p: Seq<u8>|
            sealed@ == aead_seal_of(key@, nonce@, p) ==> r is Ok && r->Ok_0@ == p,
{
    let cipher = aes_gcm::Aes256Gcm::new(aes_gcm::Key::<aes_gcm::Aes256Gcm>::from_slice(key));
    cipher.decrypt(aes_gcm::Nonce::from_slice(nonce), sealed).map_err(|_| ())
}

/// Relies on argon2::Argon2::hash_password_into with the default
/// Argon2id parameters: deterministic in password and salt, succeeds
/// for salts of 8 to 64 bytes and passwords up to 2^32 - 1 bytes, and
/// fills the 32-byte output.
#[verifier::external_body]
pub(crate) fn kdf_derive(password: &[u8], salt: &[u8]) -> (r: Vec<u8>)
    requires
        8 <= salt@.len() <= 64,
        password@.len() < 0x1_0000_0000,
    ensures
        r@ == kdf_of(password@, salt@),
        r@.len() == DEK_LEN,
{
    let mut out = [0u8; 32];
    argon2::Argon2::default()
        .hash_password_into(password, salt, &mut out)
        .expect("salt and password lengths within bounds");
    out.to_vec()
}

/// Relies on sha2::Sha256: the digest of salt then password, 32 bytes,
/// a function of its input alone.
#[verifier::external_body]
pub(crate) fn password_verifier(password: &[u8], salt: &[u8]) -> (r: Vec<u8>)
    ensures
        r@ == verifier_of(password@, salt@),
        r@.len() == VERIFIER_LEN,
{
    let mut hasher = sha2::Sha256::new();
    hasher.update(salt);
    hasher.update(password);
    hasher.finalize().to_vec()
}

/// Relies on rsa::RsaPublicKey::encrypt with OAEP over SHA-256 (the
/// key parsed from SubjectPublicKeyInfo DER): when a private key
/// whose public half is this key decrypts the returned blob at all,
/// it recovers exactly the wrapped bytes. The crate also accepts
/// degenerate private keys whose decryption rejects everything, so
/// success of the unwrap is not promised here; the padding is
/// randomized, so nothing else is promised of the blob itself.
#[verifier::external_body]
pub(crate) fn rsa_wrap(pk_der: &[u8], dek: &[u8]) -> (r: Result<Vec<u8>, ()>)
    ensures
        r is Ok ==> forall|sk: Seq<u8>|
            rsa_pub_der_of(sk) == pk_der@ && rsa_unwrap_of(sk, r->Ok_0@) is Some
                ==> rsa_unwrap_of(sk, r->Ok_0@) == Some(dek@),
{
    let pk = rsa::RsaPublicKey::from_public_key_der(pk_der).map_err(|_| ())?;
    pk.encrypt(&mut rand::rngs::OsRng, rsa::Oaep::new::<sha2::Sha256>(), dek).map_err(|_| ())
}

/// Relies on rsa::RsaPrivateKey::decrypt with OAEP over SHA-256 (the
/// key parsed from PKCS#8 DER): deterministic in the key bytes and the
/// blob; the error covers both an unparseable key and a failed
/// padding check.
#[verifier::external_body]
pub(crate) fn rsa_unwrap(sk_der: &[u8], wrapped: &[u8]) -> (r: Result<Vec<u8>, ()>)
    ensures
        r is Ok ==> rsa_unwrap_of(sk_der@, wrapped@) == Some(r->Ok_0@),
        r is Err ==> rsa_unwrap_of(sk_der@, wrapped@) is None,
{
    let sk = rsa::RsaPrivateKey::from_pkcs8_der(sk_der).map_err(|_| ())?;
    sk.decrypt(rsa::Oaep::new::<sha2::Sha256>(), wrapped).map_err(|_| ())
}

/// Relies on rsa::RsaPublicKey::from (the public half of a parsed
/// private key) and its canonical SubjectPublicKeyInfo DER encoding:
/// a function of the private key bytes alone.
#[verifier::external_body]
pub(crate) fn derive_public_key(sk_der: &[u8]) -> (r: Result<Vec<u8>, ()>)
    ensures
        r is Ok ==> r->Ok_0@ == rsa_pub_der_of(sk_der@),
{
    let sk = rsa::RsaPrivateKey::from_pkcs8_der(sk_der).map_err(|_| ())?;
    let doc = rsa::RsaPublicKey::from(&sk).to_public_key_der().map_err(|_| ())?;
    Ok(doc.as_bytes().to_vec())
}

/// Byte-for-byte comparison that scans both slices to the end instead
/// of stopping at the first mismatch, so that the time taken does not
/// reveal where a verifier comparison failed.
pub fn eq_bytes(a: &[u8], b: &[u8]) -> (r: bool)
    ensures
        r == (a@ == b@),
{
    if a.len() != b.len() {
        return false;
    }
    let mut same = true;
    let mut i: usize = 0;
    proof {
        assert(a@.subrange(0, 0) =~= b@.subrange(0, 0));
    }
    while i < a.len()
        invariant
            i <= a@.len(),
            a@.len() == b@.len(),
            same == (a@.subrange(0, i as int) == b@.subrange(0, i as int)),
        decreases a@.len() - i,
    {
        let ghost pre = same;
        let here = a[i] == b[i];
        if !here {
            same = false;
        }
        proof {
            let j = i as int;
            if pre && a@[j] == b@[j] {
                assert(a@.subrange(0, j + 1) =~= b@.subrange(0, j + 1));
            } else {
                if a@.subrange(0, j + 1) == b@.subrange(0, j + 1) {
                    assert(a@.subrange(0, j) =~= a@.subrange(0, j + 1).subrange(0, j));
                    assert(b@.subrange(0, j) =~= b@.subrange(0, j + 1).subrange(0, j));
                    assert(a@[j] == a@.subrange(0, j + 1)[j]);
                    assert(b@[j] == b@.subrange(0, j + 1)[j]);
                }
            }
        }
        i = i + 1;
    }
    proof {
        if same {
            assert(a@.subrange(0, a@.len() as int) =~= a@);
            assert(b@.subrange(0, b@.len() as int) =~= b@);
        } else {
            if a@ == b@ {
                assert(a@.subrange(0, a@.len() as int) =~= b@.subrange(0, b@.len() as int));
            }
        }
    }
    same
}

} // verus!
