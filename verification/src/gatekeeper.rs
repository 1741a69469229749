//! The retrieval gatekeeper: it services a retrieve request against
//! the ledger, in order — lookup, lockout, revocation, expiry,
//! password verifier, and only then the cryptographic unwrap. Every
//! denial looks the same from outside, so an attacker learns neither
//! whether an id exists nor which gate refused; a failed unwrap after
//! a correct password is the one distinct, internal condition.
use crate::crypto::AEAD_MAX_PLAINTEXT;
use crate::crypto::rsa_pub_der_of;
use crate::crypto::rsa_unwrap_of;
use crate::crypto::verifier_of;
use crate::dtos::FileUploadDtos;
use crate::dtos::parse_rfc3339;
use crate::dtos::RetrieveFileDto;
use crate::dtos::rfc3339_ts;
use crate::dtos::spec_validate_retrieve;
use crate::dtos::spec_validate_upload;
use crate::dtos::UserSendFileDto;
use crate::dtos::ValidationIssue;
use crate::envelope::check_password;
use crate::envelope::create_envelope;
use crate::envelope::envelope_sealed;
use crate::envelope::envelope_sealed_with;
use crate::envelope::gate_chain;
use crate::envelope::open_for_recipient;
use crate::envelope::recipient_opens_to;
use crate::error::dec_str_of;
use crate::error::u64_to_decimal;
use crate::expiry::is_expired;
use crate::expiry::ShareStatus;
use crate::expiry::spec_is_expired;
use crate::expiry::status_allows;
use crate::ledger::bump;
use crate::ledger::bumped;
use crate::ledger::FileRecord;
use crate::ledger::Ledger;
use crate::ledger::lemma_unique_match;
use crate::ledger::match_at;
use crate::ledger::no_match;
use crate::ledger::ShareLink;
use crate::ledger::with_status;
use vstd::prelude::*;

verus! {

/// How many recorded password failures lock a share.
pub const MAX_FAILED_ATTEMPTS: u64 = 5;

/// What a retrieve request can fail with. `Denied` is the uniform
/// refusal for an unknown id, a locked or revoked or expired share and
/// a wrong password; `Internal` marks a cryptographic failure after a
/// correct password — evidence of tampering, not a counted attempt.
#[derive(Clone, Copy, PartialEq, Eq, Structural, Debug)]
pub enum GateError {
    Denied,
    Internal,
}

/// The share is still serviceable: not locked out, in a live status
/// (`Pending` or `Delivered`), and not past its deadline.
pub open spec fn live(s: ShareLink, f: FileRecord, now: i64) -> bool {
    &&& s.failed_attempts < MAX_FAILED_ATTEMPTS
    &&& (s.status == ShareStatus::Pending || s.status == ShareStatus::Delivered)
    &&& !spec_is_expired(f.expiration_date, now)
}

/// The stored verifier accepts the password.
pub open spec fn password_ok(f: FileRecord, pw: Seq<u8>) -> bool {
    verifier_of(pw, f.envelope.password_salt@) == f.envelope.password_verifier@
}

/// What `retrieve` does to the ledger and returns, given that the
/// share at index `i` carries the presented id. The cases mirror the
/// gate order: lockout, revocation and an unknown id change nothing;
/// expiry marks the share `Expired`; a wrong password on a live share
/// records exactly one more failure; a correct password either opens
/// the envelope — marking the share `Delivered` — or changes nothing
/// and surfaces the internal error.
pub open spec fn retrieve_post(
    pre: Ledger,
    post: Ledger,
    i: int,
    pw: Seq<u8>,
    sk: Seq<u8>,
    now: i64,
    r: Result<Vec<u8>, GateError>,
) -> bool {
    let s = pre.shares@[i];
    let f = pre.files@[i];
    &&& (s.failed_attempts >= MAX_FAILED_ATTEMPTS ==> r == Err::<Vec<u8>, GateError>(
        GateError::Denied,
    ) && post == pre)
    &&& (s.failed_attempts < MAX_FAILED_ATTEMPTS && (s.status == ShareStatus::Revoked || s.status
        == ShareStatus::Expired) ==> r == Err::<Vec<u8>, GateError>(GateError::Denied) && post
        == pre)
    &&& (s.failed_attempts < MAX_FAILED_ATTEMPTS && (s.status == ShareStatus::Pending || s.status
        == ShareStatus::Delivered) && spec_is_expired(f.expiration_date, now) ==> r == Err::<
        Vec<u8>,
        GateError,
    >(GateError::Denied) && post.files@ == pre.files@ && post.shares@ == pre.shares@.update(
        i,
        with_status(s, ShareStatus::Expired),
    ))
    &&& (live(s, f, now) && !password_ok(f, pw) ==> r == Err::<Vec<u8>, GateError>(
        GateError::Denied,
    ) && post.files@ == pre.files@ && post.shares@ == pre.shares@.update(i, bumped(s)))
    &&& (live(s, f, now) && password_ok(f, pw) ==> {
        &&& (r is Ok ==> recipient_opens_to(f.envelope, pw, sk, r->Ok_0@) && post.files@
            == pre.files@ && post.shares@ == pre.shares@.update(
            i,
            with_status(s, ShareStatus::Delivered),
        ))
        &&& (r is Err ==> r == Err::<Vec<u8>, GateError>(GateError::Internal) && post == pre)
        &&& (forall|pt: Seq<u8>, dek: Seq<u8>, wr: Seq<u8>|
            gate_chain(f.envelope, pw, sk, pt, dek, wr) ==> r is Ok && r->Ok_0@ == pt)
    })
}

/// Services a retrieve request: looks the share up, applies the gates
/// in order, and on a correct password attempts the unwrap. An unknown
/// id is denied with the ledger untouched and the same shape as every
/// other denial. The contract covers expiry (a past deadline always
/// denies, whatever happened before), lockout (five recorded failures
/// deny even the correct password), exact counting of password
/// failures, and the recipient round trip (a correct password and
/// matching private key recover the sealed plaintext).
pub fn retrieve(
    ledger: &mut Ledger,
    shared_id: &String,
    password: &[u8],
    recipient_sk_der: &[u8],
    now: i64,
) -> (r: Result<Vec<u8>, GateError>)
    requires
        old(ledger).wf(),
        password@.len() < 0x1_0000_0000,
    ensures
        final(ledger).wf(),
        no_match(old(ledger).shares@, shared_id@) ==> r == Err::<Vec<u8>, GateError>(
            GateError::Denied,
        ) && *final(ledger) == *old(ledger),
        forall|i: int|
            match_at(old(ledger).shares@, shared_id@, i) ==> retrieve_post(
                *old(ledger),
                *final(ledger),
                i,
                password@,
                recipient_sk_der@,
                now,
                r,
            ),
{
    let idx = match ledger.get_by_share_id(shared_id) {
        Some(i) => i,
        None => {
            return Err(GateError::Denied);
        },
    };
    proof {
        lemma_unique_match(ledger.shares@, shared_id@, idx as int);
    }
    if ledger.shares[idx].failed_attempts >= MAX_FAILED_ATTEMPTS {
        return Err(GateError::Denied);
    }
    let status = ledger.shares[idx].status;
    if status == ShareStatus::Revoked || status == ShareStatus::Expired {
        return Err(GateError::Denied);
    }
    if is_expired(ledger.files[idx].expiration_date, now) {
        let set = ledger.set_status(shared_id, ShareStatus::Expired);
        proof {
            assert(status_allows(old(ledger).shares@[idx as int].status, ShareStatus::Expired));
            assert(set is Ok);
        }
        return Err(GateError::Denied);
    }
    if !check_password(&ledger.files[idx].envelope, password) {
        let bumped_count = ledger.increment_failed_attempt(shared_id);
        proof {
            assert(bumped_count is Ok);
        }
        return Err(GateError::Denied);
    }
    let outcome = open_for_recipient(&ledger.files[idx].envelope, password, recipient_sk_der);
    match outcome {
        Ok(plaintext) => {
            let set = ledger.set_status(shared_id, ShareStatus::Delivered);
            proof {
                assert(status_allows(old(ledger).shares@[idx as int].status, ShareStatus::Delivered));
                assert(set is Ok);
            }
            Ok(plaintext)
        },
        Err(_) => Err(GateError::Internal),
    }
}


/// What an upload request can fail with: a broken validation rule, a
/// `shared_id` collision, or a refused key wrap.
#[derive(Clone, Copy, PartialEq, Eq, Structural, Debug)]
pub enum UploadError {
    Validation(ValidationIssue),
    Conflict,
    Crypto,
}

/// Relies on uuid::Uuid::new_v4 and its hyphenated rendering: a fresh
/// random identifier of 36 characters; nothing else is promised of
/// its value.
#[verifier::external_body]
fn new_shared_id() -> (r: String)
    ensures
        r@.len() == 36,
{
    uuid::Uuid::new_v4().to_string()
}

/// Services an upload: validates the request against the injected
/// clock, seals the plaintext into an envelope under the request's
/// password and the two public keys, and appends the record and its
/// `Pending` share to the ledger. A broken validation rule is
/// reported field-first and changes nothing; so do a `shared_id`
/// collision and a refused key wrap. On success the new record holds
/// a strictly future deadline and an envelope sealed from exactly the
/// given plaintext.
pub fn upload(
    ledger: &mut Ledger,
    owner_id: u64,
    owner_email: String,
    file_name: String,
    dto: &FileUploadDtos,
    plaintext: &[u8],
    sender_pk_der: &[u8],
    recipient_pk_der: &[u8],
    now: i64,
) -> (r: Result<UserSendFileDto, UploadError>)
    requires
        old(ledger).wf(),
        old(ledger).files@.len() < u64::MAX,
        plaintext@.len() <= AEAD_MAX_PLAINTEXT,
        vstd::utf8::encode_utf8(dto.password@).len() < 0x1_0000_0000,
    ensures
        final(ledger).wf(),
        r is Err ==> *final(ledger) == *old(ledger),
        spec_validate_upload(*dto, now) is Some ==> r == Err::<UserSendFileDto, UploadError>(
            UploadError::Validation(spec_validate_upload(*dto, now)->0),
        ),
        r is Err && r->Err_0 is Validation ==> spec_validate_upload(*dto, now) == Some(
            r->Err_0->Validation_0,
        ),
        r is Err && !(r->Err_0 is Validation) ==> spec_validate_upload(*dto, now) is None,
        r is Ok ==> spec_validate_upload(*dto, now) is None,
        r is Ok ==> {
            let n = old(ledger).files@.len() as int;
            let ts = rfc3339_ts(dto.expiration_date@)->0;
            let f = final(ledger).files@[n];
            let s = final(ledger).shares@[n];
            &&& final(ledger).files@.len() == n + 1
            &&& final(ledger).shares@.len() == n + 1
            &&& final(ledger).files@.subrange(0, n) == old(ledger).files@
            &&& final(ledger).shares@.subrange(0, n) == old(ledger).shares@
            &&& f.id == n
            &&& f.owner_id == owner_id
            &&& f.owner_email == owner_email
            &&& f.file_name == file_name
            &&& f.file_size == plaintext@.len()
            &&& f.expiration_date == ts
            &&& ts > now
            &&& f.created_at == now
            &&& envelope_sealed(
                f.envelope,
                plaintext@,
                vstd::utf8::encode_utf8(dto.password@),
                sender_pk_der@,
                recipient_pk_der@,
            )
            &&& s.file_id == n
            &&& s.recipient_email == dto.recipient_email
            &&& s.status == ShareStatus::Pending
            &&& s.failed_attempts == 0
            &&& s.shared_id@.len() == 36
            &&& r->Ok_0.file_id@ == dec_str_of(n)
            &&& r->Ok_0.file_name@ == file_name@
            &&& r->Ok_0.recipient_email@ == dto.recipient_email@
            &&& r->Ok_0.expiration_date == ts
            &&& r->Ok_0.created_at == now
        },
{
    match dto.validate(now) {
        Some(issue) => {
            return Err(UploadError::Validation(issue));
        },
        None => {},
    }
    let ts = match parse_rfc3339(dto.expiration_date.as_str()) {
        Some(t) => t,
        None => {
            return Err(UploadError::Validation(ValidationIssue::ExpirationFormat));
        },
    };
    let password_bytes = dto.password.as_str().as_bytes();
    let env = match create_envelope(plaintext, sender_pk_der, recipient_pk_der, password_bytes) {
        Ok(e) => e,
        Err(_) => {
            return Err(UploadError::Crypto);
        },
    };
    let shared_id = new_shared_id();
    let file_name_out = file_name.clone();
    let file_id = match ledger.create_share(
        owner_id,
        owner_email,
        file_name,
        plaintext.len() as u64,
        env,
        ts,
        now,
        shared_id,
        dto.recipient_email.clone(),
    ) {
        Ok(id) => id,
        Err(_) => {
            return Err(UploadError::Conflict);
        },
    };
    let out = UserSendFileDto {
        file_id: u64_to_decimal(file_id),
        file_name: file_name_out,
        recipient_email: dto.recipient_email.clone(),
        expiration_date: ts,
        created_at: now,
    };
    proof {
        let n = old(ledger).files@.len() as int;
        assert(ledger.files@.subrange(0, n) =~= old(ledger).files@);
        assert(ledger.shares@.subrange(0, n) =~= old(ledger).shares@);
    }
    Ok(out)
}


/// What a retrieve request can fail with at the request level: a
/// broken validation rule, or a refusal out of `retrieve` itself.
#[derive(Clone, Copy, PartialEq, Eq, Structural, Debug)]
pub enum RetrieveRequestError {
    Validation(ValidationIssue),
    Gate(GateError),
}

/// Services a full retrieve request: checks the request's shape
/// first, then runs `retrieve` with the request's password bytes. A
/// malformed request is refused before the ledger is consulted and
/// changes nothing; otherwise the ledger moves exactly as
/// `retrieve` says.
pub fn retrieve_request(
    ledger: &mut Ledger,
    dto: &RetrieveFileDto,
    recipient_sk_der: &[u8],
    now: i64,
) -> (r: Result<Vec<u8>, RetrieveRequestError>)
    requires
        old(ledger).wf(),
        vstd::utf8::encode_utf8(dto.password@).len() < 0x1_0000_0000,
    ensures
        final(ledger).wf(),
        spec_validate_retrieve(*dto) is Some ==> r == Err::<Vec<u8>, RetrieveRequestError>(
            RetrieveRequestError::Validation(spec_validate_retrieve(*dto)->0),
        ) && *final(ledger) == *old(ledger),
        spec_validate_retrieve(*dto) is None ==> {
            let pw = vstd::utf8::encode_utf8(dto.password@);
            &&& !(r is Err && r->Err_0 is Validation)
            &&& (no_match(old(ledger).shares@, dto.shared_id@) ==> r == Err::<
                Vec<u8>,
                RetrieveRequestError,
            >(RetrieveRequestError::Gate(GateError::Denied)) && *final(ledger) == *old(ledger))
            &&& (forall|i: int|
                match_at(old(ledger).shares@, dto.shared_id@, i) ==> retrieve_post(
                    *old(ledger),
                    *final(ledger),
                    i,
                    pw,
                    recipient_sk_der@,
                    now,
                    if r is Ok {
                        Ok(r->Ok_0)
                    } else if r->Err_0 is Gate {
                        Err(r->Err_0->Gate_0)
                    } else {
                        Err(GateError::Denied)
                    },
                ))
        },
{
    match dto.validate() {
        Some(issue) => {
            return Err(RetrieveRequestError::Validation(issue));
        },
        None => {},
    }
    let password_bytes = dto.password.as_str().as_bytes();
    match retrieve(ledger, &dto.shared_id, password_bytes, recipient_sk_der, now) {
        Ok(plaintext) => Ok(plaintext),
        Err(g) => Err(RetrieveRequestError::Gate(g)),
    }
}


/// End-to-end round trip: take a ledger whose share at `i` is live —
/// not locked, `Pending` or `Delivered`, deadline not passed — and
/// whose record holds an envelope sealed from plaintext `pt` under
/// password `pw` for recipient key `rpk` (as `upload` leaves it).
/// Then any `retrieve` with that password and a private key whose
/// public half is `rpk` and whose decryption accepts the wrapped copy
/// — true of every honestly generated keypair — must return exactly
/// `pt` and settle the share on `Delivered`.
pub proof fn lemma_upload_then_retrieve(
    pre: Ledger,
    post: Ledger,
    i: int,
    pt: Seq<u8>,
    pw: Seq<u8>,
    spk: Seq<u8>,
    rpk: Seq<u8>,
    sk: Seq<u8>,
    dek: Seq<u8>,
    wr: Seq<u8>,
    now: i64,
    r: Result<Vec<u8>, GateError>,
)
    requires
        0 <= i < pre.shares@.len(),
        envelope_sealed_with(pre.files@[i].envelope, pt, pw, spk, rpk, dek, wr),
        rsa_pub_der_of(sk) == rpk,
        rsa_unwrap_of(sk, wr) is Some,
        pre.shares@[i].failed_attempts < MAX_FAILED_ATTEMPTS,
        pre.shares@[i].status == ShareStatus::Pending || pre.shares@[i].status
            == ShareStatus::Delivered,
        !spec_is_expired(pre.files@[i].expiration_date, now),
        retrieve_post(pre, post, i, pw, sk, now, r),
    ensures
        r is Ok,
        r->Ok_0@ == pt,
        post.files@ == pre.files@,
        post.shares@ == pre.shares@.update(i, with_status(pre.shares@[i], ShareStatus::Delivered)),
{
    let env = pre.files@[i].envelope;
    assert(password_ok(pre.files@[i], pw));
    assert(gate_chain(env, pw, sk, pt, dek, wr));
    assert(live(pre.shares@[i], pre.files@[i], now));
}

/// The attempt counter after `n` recorded failures in turn.
pub open spec fn bump_n(a: u64, n: nat) -> u64
    decreases n,
{
    if n == 0 {
        a
    } else {
        bump(bump_n(a, (n - 1) as nat))
    }
}

/// No lost updates: `n` recorded password failures, applied one after
/// another as `retrieve` records them, leave the counter exactly `n`
/// higher — each failure is counted once and none is overwritten.
pub proof fn lemma_attempts_accumulate(a: u64, n: nat)
    requires
        a + n <= u64::MAX,
    ensures
        bump_n(a, n) == a + n,
    decreases n,
{
    if n > 0 {
        lemma_attempts_accumulate(a, (n - 1) as nat);
    }
}

} // verus!
