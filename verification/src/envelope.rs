//! The envelope codec: it builds an encryption envelope from a
//! plaintext, the two public keys and a password, and opens one again
//! for the recipient (password plus private key) or the sender
//! (private key alone). Every failure surfaces as the one generic
//! `CryptoError`, so a caller learns nothing about which step refused.
use crate::crypto::aead_open;
use crate::crypto::aead_seal;
use crate::crypto::aead_seal_of;
use crate::crypto::derive_public_key;
use crate::crypto::eq_bytes;
use crate::crypto::kdf_derive;
use crate::crypto::kdf_of;
use crate::crypto::password_verifier;
use crate::crypto::random_bytes;
use crate::crypto::rsa_pub_der_of;
use crate::crypto::rsa_unwrap;
use crate::crypto::rsa_unwrap_of;
use crate::crypto::rsa_wrap;
use crate::crypto::verifier_of;
use crate::crypto::AEAD_MAX_PLAINTEXT;
use crate::crypto::DEK_LEN;
use crate::crypto::NONCE_LEN;
use crate::crypto::SALT_LEN;
use crate::crypto::VERIFIER_LEN;
use vstd::prelude::*;

verus! {

/// The one failure an envelope operation surfaces: wrong password,
/// wrong private key and tampered bytes are indistinguishable.
#[derive(Clone, Copy, PartialEq, Eq, Structural, Debug)]
pub struct CryptoError;

/// An encryption envelope: the sealed plaintext, the data-encryption
/// key wrapped once for the sender and once — additionally sealed
/// under a password-derived key — for the recipient, and the salt and
/// verifier of the password gate.
#[derive(Clone, Debug)]
pub struct Envelope {
    /// Nonce of the plaintext seal.
    pub nonce: Vec<u8>,
    /// Ciphertext of the plaintext with the authentication tag appended.
    pub ciphertext: Vec<u8>,
    /// The DEK wrapped under the sender's public key.
    pub wrapped_dek_sender: Vec<u8>,
    /// The DEK wrapped under the recipient's public key, then sealed
    /// under the password-derived key.
    pub gated_wrapped_dek_recipient: Vec<u8>,
    /// Nonce of the password-gate seal.
    pub gate_nonce: Vec<u8>,
    /// Salt of the password-derived key and of the verifier.
    pub password_salt: Vec<u8>,
    /// Hash of salt and password, distinct from the derived key, so a
    /// wrong password can be rejected without attempting an unwrap.
    pub password_verifier: Vec<u8>,
}

impl Envelope {
    /// The fixed-length fields have their nominal lengths.
    pub open spec fn wf(self) -> bool {
        &&& self.nonce@.len() == NONCE_LEN
        &&& self.gate_nonce@.len() == NONCE_LEN
        &&& self.password_salt@.len() == SALT_LEN
        &&& self.password_verifier@.len() == VERIFIER_LEN
    }
}

/// The envelope holds `pt` sealed under the key `dek`, `dek` wrapped
/// for the holders of the two public keys (`wr` being the recipient's
/// wrapped copy before the password gate), the recipient copy gated
/// under the key derived from `pw`, and the verifier of `pw`. Of the
/// wraps this promises what RSA-OAEP decryption warrants: a matching
/// private key that accepts the blob at all recovers exactly `dek`
/// (a degenerate private key may decrypt nothing).
pub open spec fn envelope_sealed_with(
    e: Envelope,
    pt: Seq<u8>,
    pw: Seq<u8>,
    spk: Seq<u8>,
    rpk: Seq<u8>,
    dek: Seq<u8>,
    wr: Seq<u8>,
) -> bool {
    &&& dek.len() == DEK_LEN
    &&& e.ciphertext@ == aead_seal_of(dek, e.nonce@, pt)
    &&& (forall|sk: Seq<u8>|
        rsa_pub_der_of(sk) == spk && rsa_unwrap_of(sk, e.wrapped_dek_sender@) is Some
            ==> rsa_unwrap_of(sk, e.wrapped_dek_sender@) == Some(dek))
    &&& (forall|sk: Seq<u8>|
        rsa_pub_der_of(sk) == rpk && rsa_unwrap_of(sk, wr) is Some ==> rsa_unwrap_of(sk, wr)
            == Some(dek))
    &&& e.gated_wrapped_dek_recipient@ == aead_seal_of(
        kdf_of(pw, e.password_salt@),
        e.gate_nonce@,
        wr,
    )
    &&& e.password_verifier@ == verifier_of(pw, e.password_salt@)
}

/// The envelope was built from `pt` under password `pw` for the two
/// public keys, with some data-encryption key.
pub open spec fn envelope_sealed(
    e: Envelope,
    pt: Seq<u8>,
    pw: Seq<u8>,
    spk: Seq<u8>,
    rpk: Seq<u8>,
) -> bool {
    exists|dek: Seq<u8>, wr: Seq<u8>| envelope_sealed_with(e, pt, pw, spk, rpk, dek, wr)
}

/// The password gate of `e` opens under `pw` to the wrapped copy `wr`,
/// which the private key `sk` unwraps to the 32-byte key `dek`.
pub open spec fn gate_opens(e: Envelope, pw: Seq<u8>, sk: Seq<u8>, dek: Seq<u8>, wr: Seq<u8>) -> bool {
    &&& e.gated_wrapped_dek_recipient@ == aead_seal_of(
        kdf_of(pw, e.password_salt@),
        e.gate_nonce@,
        wr,
    )
    &&& rsa_unwrap_of(sk, wr) == Some(dek)
    &&& dek.len() == DEK_LEN
}

/// Both recipient stages composed: the password gate releases the
/// wrapped copy, and unwrapping it gives the 32-byte key that opens
/// the ciphertext to `pt`.
pub open spec fn gate_chain(
    e: Envelope,
    pw: Seq<u8>,
    sk: Seq<u8>,
    pt: Seq<u8>,
    dek: Seq<u8>,
    wr: Seq<u8>,
) -> bool {
    &&& gate_opens(e, pw, sk, dek, wr)
    &&& e.ciphertext@ == aead_seal_of(dek, e.nonce@, pt)
}

/// The sender chain: the sender's private key unwraps its copy of the
/// key, which opens the ciphertext to `pt`.
pub open spec fn sender_chain(e: Envelope, sk: Seq<u8>, pt: Seq<u8>, dek: Seq<u8>) -> bool {
    &&& rsa_unwrap_of(sk, e.wrapped_dek_sender@) == Some(dek)
    &&& dek.len() == DEK_LEN
    &&& e.ciphertext@ == aead_seal_of(dek, e.nonce@, pt)
}

/// Password `pw` and private key `sk` take the recipient through the
/// gate and the ciphertext of `e` to exactly the plaintext `pt`.
pub open spec fn recipient_opens_to(e: Envelope, pw: Seq<u8>, sk: Seq<u8>, pt: Seq<u8>) -> bool {
    exists|dek: Seq<u8>, wr: Seq<u8>| gate_chain(e, pw, sk, pt, dek, wr)
}

/// The private key `sk` leads through the sender's wrapped copy and
/// the ciphertext of `e` to exactly the plaintext `pt`.
pub open spec fn sender_opens_to(e: Envelope, sk: Seq<u8>, pt: Seq<u8>) -> bool {
    exists|dek: Seq<u8>| sender_chain(e, sk, pt, dek)
}

/// Builds an envelope: a fresh random data-encryption key seals the
/// plaintext under a fresh nonce; the key is wrapped under each public
/// key; the recipient's wrapped copy is sealed again under a key
/// derived from the password and a fresh salt; and a verifier of the
/// password is stored beside the salt. Fails only when a public key is
/// refused by the asymmetric wrap.
pub fn create_envelope(
    plaintext: &[u8],
    sender_pk_der: &[u8],
    recipient_pk_der: &[u8],
    password: &[u8],
) -> (r: Result<Envelope, CryptoError>)
    requires
        plaintext@.len() <= AEAD_MAX_PLAINTEXT,
        password@.len() < 0x1_0000_0000,
    ensures
        r is Ok ==> r->Ok_0.wf(),
        r is Ok ==> envelope_sealed(
            r->Ok_0,
            plaintext@,
            password@,
            sender_pk_der@,
            recipient_pk_der@,
        ),
        r is Ok ==> r->Ok_0.ciphertext@.len() == plaintext@.len() + 16,
{
    let dek = random_bytes(DEK_LEN);
    let nonce = random_bytes(NONCE_LEN);
    let gate_nonce = random_bytes(NONCE_LEN);
    let salt = random_bytes(SALT_LEN);
    let ciphertext = aead_seal(dek.as_slice(), nonce.as_slice(), plaintext);
    let wrapped_sender = match rsa_wrap(sender_pk_der, dek.as_slice()) {
        Ok(w) => w,
        Err(_) => {
            return Err(CryptoError);
        },
    };
    let wrapped_recipient = match rsa_wrap(recipient_pk_der, dek.as_slice()) {
        Ok(w) => w,
        Err(_) => {
            return Err(CryptoError);
        },
    };
    if (wrapped_recipient.len() as u64) > AEAD_MAX_PLAINTEXT {
        return Err(CryptoError);
    }
    let gate_key = kdf_derive(password, salt.as_slice());
    let gated = aead_seal(gate_key.as_slice(), gate_nonce.as_slice(), wrapped_recipient.as_slice());
    let verifier = password_verifier(password, salt.as_slice());
    let env = Envelope {
        nonce,
        ciphertext,
        wrapped_dek_sender: wrapped_sender,
        gated_wrapped_dek_recipient: gated,
        gate_nonce,
        password_salt: salt,
        password_verifier: verifier,
    };
    proof {
        assert(envelope_sealed_with(
            env,
            plaintext@,
            password@,
            sender_pk_der@,
            recipient_pk_der@,
            dek@,
            wrapped_recipient@,
        ));
    }
    Ok(env)
}

/// Opens an envelope for the recipient: derives the password key,
/// removes the password gate, unwraps the data-encryption key with the
/// recipient's private key, and opens the ciphertext. Succeeds exactly
/// on the authentic chain: a correct password and matching private key
/// recover the sealed plaintext, and no change to the stored
/// ciphertext or tag can make it return that plaintext.
pub fn open_for_recipient(
    env: &Envelope,
    password: &[u8],
    recipient_sk_der: &[u8],
) -> (r: Result<Vec<u8>, CryptoError>)
    requires
        env.wf(),
        password@.len() < 0x1_0000_0000,
    ensures
        r is Ok ==> recipient_opens_to(*env, password@, recipient_sk_der@, r->Ok_0@),
        r is Ok ==> forall|dek: Seq<u8>, wr: Seq<u8>|
            gate_opens(*env, password@, recipient_sk_der@, dek, wr)
                ==> env.ciphertext@ == aead_seal_of(dek, env.nonce@, r->Ok_0@),
        forall|pt: Seq<u8>, dek: Seq<u8>, wr: Seq<u8>|
            gate_chain(*env, password@, recipient_sk_der@, pt, dek, wr)
                ==> r is Ok && r->Ok_0@ == pt,
        forall|pt: Seq<u8>, dek: Seq<u8>, wr: Seq<u8>|
            gate_opens(*env, password@, recipient_sk_der@, dek, wr)
                && env.ciphertext@ != aead_seal_of(dek, env.nonce@, pt)
                ==> !(r is Ok && r->Ok_0@ == pt),
{
    let gate_key = kdf_derive(password, env.password_salt.as_slice());
    let wr = match aead_open(
        gate_key.as_slice(),
        env.gate_nonce.as_slice(),
        env.gated_wrapped_dek_recipient.as_slice(),
    ) {
        Ok(w) => w,
        Err(_) => {
            return Err(CryptoError);
        },
    };
    let dek = match rsa_unwrap(recipient_sk_der, wr.as_slice()) {
        Ok(d) => d,
        Err(_) => {
            return Err(CryptoError);
        },
    };
    if dek.len() != DEK_LEN {
        return Err(CryptoError);
    }
    match aead_open(dek.as_slice(), env.nonce.as_slice(), env.ciphertext.as_slice()) {
        Ok(p) => {
            proof {
                assert(gate_chain(*env, password@, recipient_sk_der@, p@, dek@, wr@));
                assert(recipient_opens_to(*env, password@, recipient_sk_der@, p@));
            }
            Ok(p)
        },
        Err(_) => Err(CryptoError),
    }
}

/// Opens an envelope for the sender: unwraps the sender's copy of the
/// data-encryption key and opens the ciphertext; no password is
/// involved. Succeeds exactly on the authentic sender chain.
pub fn open_for_sender(env: &Envelope, sender_sk_der: &[u8]) -> (r: Result<Vec<u8>, CryptoError>)
    requires
        env.wf(),
    ensures
        r is Ok ==> sender_opens_to(*env, sender_sk_der@, r->Ok_0@),
        r is Ok ==> forall|dek: Seq<u8>|
            rsa_unwrap_of(sender_sk_der@, env.wrapped_dek_sender@) == Some(dek) && dek.len()
                == DEK_LEN ==> env.ciphertext@ == aead_seal_of(dek, env.nonce@, r->Ok_0@),
        forall|pt: Seq<u8>, dek: Seq<u8>|
            sender_chain(*env, sender_sk_der@, pt, dek) ==> r is Ok && r->Ok_0@ == pt,
{
    let dek = match rsa_unwrap(sender_sk_der, env.wrapped_dek_sender.as_slice()) {
        Ok(d) => d,
        Err(_) => {
            return Err(CryptoError);
        },
    };
    if dek.len() != DEK_LEN {
        return Err(CryptoError);
    }
    match aead_open(dek.as_slice(), env.nonce.as_slice(), env.ciphertext.as_slice()) {
        Ok(p) => {
            proof {
                assert(sender_chain(*env, sender_sk_der@, p@, dek@));
                assert(sender_opens_to(*env, sender_sk_der@, p@));
            }
            Ok(p)
        },
        Err(_) => Err(CryptoError),
    }
}

/// Checks a password against the envelope's stored verifier; the
/// comparison scans the whole digest rather than stopping early.
pub fn check_password(env: &Envelope, password: &[u8]) -> (r: bool)
    ensures
        r == (verifier_of(password@, env.password_salt@) == env.password_verifier@),
{
    let candidate = password_verifier(password, env.password_salt.as_slice());
    eq_bytes(candidate.as_slice(), env.password_verifier.as_slice())
}

/// Checks that a private key in PKCS#8 DER form belongs to the public
/// key in SubjectPublicKeyInfo DER form: a client can so discharge the
/// matching-key premise of the round-trip law before retrieving.
pub fn keypair_matches(sk_der: &[u8], pk_der: &[u8]) -> (r: bool)
    ensures
        r ==> rsa_pub_der_of(sk_der@) == pk_der@,
{
    match derive_public_key(sk_der) {
        Ok(pk) => eq_bytes(pk.as_slice(), pk_der),
        Err(_) => false,
    }
}

/// Round trip: an envelope built from a plaintext opens back to that
/// plaintext, under the password it was built with, for any private
/// key whose public half is the recipient key the envelope was
/// addressed to and whose decryption accepts the wrapped copy at all
/// — true of every honestly generated RSA keypair; the rsa crate also
/// admits degenerate private keys that decrypt nothing, which that
/// premise excludes. Together with the contract of
/// `open_for_recipient`, which returns the plaintext of every
/// satisfied chain, this is the recipient round trip.
pub proof fn lemma_round_trip(
    e: Envelope,
    pt: Seq<u8>,
    pw: Seq<u8>,
    spk: Seq<u8>,
    rpk: Seq<u8>,
    sk: Seq<u8>,
    dek: Seq<u8>,
    wr: Seq<u8>,
)
    requires
        envelope_sealed_with(e, pt, pw, spk, rpk, dek, wr),
        rsa_pub_der_of(sk) == rpk,
        rsa_unwrap_of(sk, wr) is Some,
    ensures
        recipient_opens_to(e, pw, sk, pt),
{
    assert(gate_chain(e, pw, sk, pt, dek, wr));
}

/// The same round trip for the sender: a private key whose public
/// half is the sender key, and whose decryption accepts the sender's
/// wrapped copy, alone recovers the plaintext.
pub proof fn lemma_sender_round_trip(
    e: Envelope,
    pt: Seq<u8>,
    pw: Seq<u8>,
    spk: Seq<u8>,
    rpk: Seq<u8>,
    sk: Seq<u8>,
    dek: Seq<u8>,
    wr: Seq<u8>,
)
    requires
        envelope_sealed_with(e, pt, pw, spk, rpk, dek, wr),
        rsa_pub_der_of(sk) == spk,
        rsa_unwrap_of(sk, e.wrapped_dek_sender@) is Some,
    ensures
        sender_opens_to(e, sk, pt),
{
    assert(sender_chain(e, sk, pt, dek));
}

/// Tamper detection: take an envelope sealed from `pt` and any
/// tampered copy that keeps the password gate and nonce but whose
/// stored ciphertext-with-tag differs anywhere. The tampered copy
/// still satisfies `gate_opens`, yet its bytes are not the seal of
/// `pt` — so by the last clause of `open_for_recipient`'s contract,
/// opening the tampered copy can never return `pt`.
pub proof fn lemma_tamper_never_original(
    e: Envelope,
    t: Envelope,
    pt: Seq<u8>,
    pw: Seq<u8>,
    spk: Seq<u8>,
    rpk: Seq<u8>,
    sk: Seq<u8>,
    dek: Seq<u8>,
    wr: Seq<u8>,
)
    requires
        envelope_sealed_with(e, pt, pw, spk, rpk, dek, wr),
        rsa_pub_der_of(sk) == rpk,
        rsa_unwrap_of(sk, wr) is Some,
        t.gated_wrapped_dek_recipient@ == e.gated_wrapped_dek_recipient@,
        t.password_salt@ == e.password_salt@,
        t.gate_nonce@ == e.gate_nonce@,
        t.nonce@ == e.nonce@,
        t.ciphertext@ != e.ciphertext@,
    ensures
        gate_opens(t, pw, sk, dek, wr),
        t.ciphertext@ != aead_seal_of(dek, t.nonce@, pt),
{
    assert(gate_opens(t, pw, sk, dek, wr));
    assert(e.ciphertext@ == aead_seal_of(dek, e.nonce@, pt));
}

} // verus!
