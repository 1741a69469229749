//! End-to-end tests of the gatekeeper and ledger: the upload and
//! retrieve flow, lockout, expiry, revocation, attempt counting and
//! pagination, driven by an injected clock.
use secure_share::dtos::FileUploadDtos;
use secure_share::envelope::Envelope;
use secure_share::expiry::ShareStatus;
use secure_share::dtos::RetrieveFileDto;
use secure_share::dtos::ValidationIssue;
use secure_share::gatekeeper::retrieve;
use secure_share::gatekeeper::retrieve_request;
use secure_share::gatekeeper::RetrieveRequestError;
use secure_share::gatekeeper::upload;
use secure_share::gatekeeper::GateError;
use secure_share::ledger::Ledger;
use secure_share::ledger::ConflictError;
use secure_share::ledger::LedgerError;

fn sender_sk() -> Vec<u8> {
    vec![48, 130, 2, 119, 2, 1, 0, 48, 13, 6, 9, 42, 134, 72, 134, 247, 13, 1, 1, 1, 5, 0, 4, 130, 2, 97, 48, 130, 2, 93, 2, 1, 0, 2, 129, 129, 0, 227, 170, 183, 183, 197, 169, 248, 130, 186, 196, 0, 71, 107, 75, 71, 87, 248, 55, 183, 238, 47, 76, 227, 23, 239, 90, 1, 61, 68, 79, 231, 86, 241, 204, 43, 89, 124, 107, 38, 176, 75, 55, 53, 243, 253, 238, 53, 133, 186, 63, 239, 255, 182, 212, 119, 184, 194, 52, 12, 210, 78, 145, 66, 131, 108, 180, 101, 94, 207, 16, 93, 174, 156, 16, 105, 11, 137, 38, 10, 218, 163, 238, 111, 18, 22, 91, 181, 128, 243, 190, 137, 255, 42, 22, 28, 194, 155, 93, 62, 48, 2, 152, 179, 128, 105, 82, 226, 221, 150, 159, 108, 186, 254, 73, 70, 23, 0, 61, 149, 82, 120, 163, 49, 136, 199, 86, 221, 103, 2, 3, 1, 0, 1, 2, 129, 128, 125, 9, 212, 33, 48, 132, 171, 162, 81, 37, 56, 234, 0, 185, 181, 147, 81, 22, 121, 4, 110, 34, 18, 79, 160, 251, 147, 214, 172, 96, 30, 52, 152, 84, 132, 50, 127, 172, 241, 240, 189, 62, 179, 121, 48, 43, 214, 101, 125, 231, 131, 206, 180, 1, 121, 71, 150, 17, 180, 65, 5, 57, 174, 135, 42, 112, 221, 164, 194, 20, 188, 104, 140, 59, 15, 92, 174, 66, 60, 1, 93, 146, 26, 167, 120, 98, 118, 216, 212, 10, 239, 15, 38, 106, 174, 137, 72, 167, 176, 186, 229, 222, 87, 122, 235, 200, 57, 248, 32, 43, 224, 83, 40, 234, 92, 225, 103, 17, 24, 43, 142, 102, 234, 185, 191, 75, 173, 145, 2, 65, 0, 254, 53, 83, 211, 59, 140, 156, 149, 38, 12, 37, 99, 176, 169, 226, 128, 219, 177, 105, 141, 189, 107, 65, 244, 244, 9, 55, 67, 15, 131, 27, 117, 22, 15, 7, 116, 190, 19, 111, 82, 204, 106, 214, 36, 61, 228, 27, 158, 129, 236, 20, 58, 132, 189, 146, 68, 180, 210, 72, 241, 236, 93, 75, 123, 2, 65, 0, 229, 69, 128, 66, 5, 215, 96, 143, 238, 223, 32, 115, 157, 154, 87, 31, 191, 181, 22, 249, 60, 220, 66, 5, 153, 60, 107, 167, 218, 9, 216, 67, 222, 51, 201, 243, 173, 154, 97, 88, 5, 140, 113, 241, 150, 243, 55, 73, 72, 209, 72, 122, 227, 75, 26, 20, 41, 114, 136, 218, 97, 29, 236, 5, 2, 64, 12, 167, 30, 218, 254, 181, 202, 253, 105, 125, 101, 71, 6, 254, 13, 182, 24, 57, 70, 101, 181, 173, 231, 4, 136, 57, 5, 53, 35, 74, 133, 77, 88, 161, 186, 223, 70, 174, 180, 245, 204, 18, 237, 65, 180, 138, 236, 13, 1, 174, 124, 123, 69, 44, 34, 97, 165, 22, 106, 103, 16, 58, 188, 141, 2, 65, 0, 200, 178, 107, 80, 224, 62, 38, 72, 56, 201, 87, 101, 253, 203, 114, 130, 215, 85, 85, 115, 254, 35, 173, 35, 171, 125, 41, 156, 56, 144, 175, 160, 209, 109, 50, 86, 190, 92, 74, 228, 59, 143, 50, 219, 81, 209, 60, 79, 73, 143, 242, 75, 168, 150, 64, 144, 239, 171, 84, 67, 30, 10, 140, 101, 2, 65, 0, 253, 206, 32, 145, 59, 100, 149, 160, 236, 233, 119, 100, 131, 234, 16, 222, 84, 204, 63, 32, 232, 209, 218, 246, 38, 188, 123, 144, 252, 223, 150, 91, 39, 228, 115, 50, 155, 156, 75, 22, 70, 163, 159, 62, 221, 101, 115, 61, 12, 77, 17, 17, 87, 170, 34, 233, 56, 133, 12, 31, 145, 91, 194, 139]
}

fn sender_pk() -> Vec<u8> {
    vec![48, 129, 159, 48, 13, 6, 9, 42, 134, 72, 134, 247, 13, 1, 1, 1, 5, 0, 3, 129, 141, 0, 48, 129, 137, 2, 129, 129, 0, 227, 170, 183, 183, 197, 169, 248, 130, 186, 196, 0, 71, 107, 75, 71, 87, 248, 55, 183, 238, 47, 76, 227, 23, 239, 90, 1, 61, 68, 79, 231, 86, 241, 204, 43, 89, 124, 107, 38, 176, 75, 55, 53, 243, 253, 238, 53, 133, 186, 63, 239, 255, 182, 212, 119, 184, 194, 52, 12, 210, 78, 145, 66, 131, 108, 180, 101, 94, 207, 16, 93, 174, 156, 16, 105, 11, 137, 38, 10, 218, 163, 238, 111, 18, 22, 91, 181, 128, 243, 190, 137, 255, 42, 22, 28, 194, 155, 93, 62, 48, 2, 152, 179, 128, 105, 82, 226, 221, 150, 159, 108, 186, 254, 73, 70, 23, 0, 61, 149, 82, 120, 163, 49, 136, 199, 86, 221, 103, 2, 3, 1, 0, 1]
}

fn recipient_sk() -> Vec<u8> {
    vec![48, 130, 2, 120, 2, 1, 0, 48, 13, 6, 9, 42, 134, 72, 134, 247, 13, 1, 1, 1, 5, 0, 4, 130, 2, 98, 48, 130, 2, 94, 2, 1, 0, 2, 129, 129, 0, 202, 43, 34, 205, 93, 13, 121, 116, 247, 182, 61, 9, 241, 77, 222, 58, 195, 163, 7, 76, 112, 62, 177, 109, 62, 29, 209, 121, 179, 209, 161, 190, 10, 157, 217, 97, 33, 1, 140, 189, 61, 169, 18, 37, 205, 38, 43, 144, 136, 51, 123, 119, 145, 65, 239, 243, 61, 217, 80, 167, 183, 190, 104, 3, 68, 231, 211, 117, 237, 214, 36, 170, 87, 193, 228, 24, 196, 82, 19, 215, 45, 162, 157, 159, 40, 28, 101, 184, 127, 229, 42, 227, 146, 68, 131, 238, 93, 179, 46, 208, 65, 162, 102, 22, 142, 142, 69, 223, 19, 110, 28, 12, 64, 164, 228, 108, 250, 33, 100, 56, 222, 168, 60, 37, 42, 192, 115, 95, 2, 3, 1, 0, 1, 2, 129, 128, 79, 158, 97, 92, 99, 115, 53, 12, 29, 170, 69, 171, 174, 190, 173, 240, 146, 175, 151, 230, 64, 166, 80, 21, 231, 202, 178, 126, 173, 148, 183, 144, 50, 122, 43, 236, 22, 165, 151, 153, 199, 184, 216, 14, 207, 22, 99, 61, 206, 134, 7, 239, 244, 226, 244, 238, 228, 194, 187, 2, 242, 88, 40, 121, 189, 171, 30, 26, 77, 11, 197, 133, 191, 17, 73, 213, 199, 113, 8, 166, 202, 30, 203, 87, 131, 129, 77, 215, 173, 23, 214, 80, 139, 174, 26, 124, 153, 151, 47, 178, 153, 182, 83, 64, 55, 39, 191, 106, 137, 75, 204, 186, 215, 162, 228, 30, 249, 236, 25, 154, 139, 36, 69, 149, 63, 185, 137, 113, 2, 65, 0, 240, 45, 1, 141, 156, 69, 54, 65, 31, 6, 97, 22, 187, 48, 179, 43, 196, 1, 112, 181, 203, 6, 32, 173, 138, 14, 62, 97, 109, 50, 68, 123, 6, 5, 73, 82, 188, 228, 57, 40, 213, 51, 40, 229, 190, 25, 155, 120, 208, 54, 155, 73, 232, 62, 110, 230, 159, 74, 197, 129, 45, 54, 99, 45, 2, 65, 0, 215, 125, 17, 156, 89, 173, 201, 244, 116, 29, 112, 125, 59, 120, 37, 25, 153, 219, 174, 78, 154, 202, 234, 20, 70, 72, 213, 217, 180, 226, 147, 197, 150, 73, 175, 131, 228, 99, 150, 198, 97, 249, 28, 131, 207, 108, 215, 162, 166, 150, 213, 226, 61, 193, 132, 112, 217, 90, 143, 92, 210, 52, 248, 59, 2, 65, 0, 169, 223, 27, 55, 30, 173, 49, 71, 115, 251, 30, 22, 102, 197, 118, 36, 97, 88, 167, 112, 93, 45, 115, 85, 106, 204, 210, 64, 52, 108, 150, 84, 241, 24, 50, 25, 43, 242, 187, 158, 238, 212, 101, 123, 193, 45, 249, 113, 196, 202, 170, 160, 230, 123, 170, 18, 193, 221, 175, 189, 194, 205, 177, 237, 2, 65, 0, 185, 162, 234, 234, 240, 110, 192, 206, 48, 193, 179, 200, 142, 212, 191, 209, 64, 52, 122, 3, 9, 98, 201, 40, 210, 43, 168, 222, 181, 239, 131, 49, 242, 120, 100, 21, 145, 73, 33, 248, 161, 42, 67, 160, 97, 174, 248, 77, 12, 138, 96, 147, 88, 116, 63, 174, 31, 240, 222, 20, 46, 154, 167, 69, 2, 65, 0, 204, 164, 145, 46, 149, 88, 27, 131, 32, 253, 101, 21, 141, 238, 68, 109, 137, 241, 17, 81, 53, 42, 61, 0, 4, 133, 9, 113, 240, 82, 251, 32, 93, 18, 40, 9, 191, 178, 185, 136, 52, 59, 239, 203, 180, 37, 251, 45, 159, 198, 250, 69, 155, 141, 50, 238, 76, 3, 173, 111, 121, 93, 73, 50]
}

fn recipient_pk() -> Vec<u8> {
    vec![48, 129, 159, 48, 13, 6, 9, 42, 134, 72, 134, 247, 13, 1, 1, 1, 5, 0, 3, 129, 141, 0, 48, 129, 137, 2, 129, 129, 0, 202, 43, 34, 205, 93, 13, 121, 116, 247, 182, 61, 9, 241, 77, 222, 58, 195, 163, 7, 76, 112, 62, 177, 109, 62, 29, 209, 121, 179, 209, 161, 190, 10, 157, 217, 97, 33, 1, 140, 189, 61, 169, 18, 37, 205, 38, 43, 144, 136, 51, 123, 119, 145, 65, 239, 243, 61, 217, 80, 167, 183, 190, 104, 3, 68, 231, 211, 117, 237, 214, 36, 170, 87, 193, 228, 24, 196, 82, 19, 215, 45, 162, 157, 159, 40, 28, 101, 184, 127, 229, 42, 227, 146, 68, 131, 238, 93, 179, 46, 208, 65, 162, 102, 22, 142, 142, 69, 223, 19, 110, 28, 12, 64, 164, 228, 108, 250, 33, 100, 56, 222, 168, 60, 37, 42, 192, 115, 95, 2, 3, 1, 0, 1]
}

// 2030-01-01T00:00:00Z as a Unix timestamp.
const EXPIRY_TS: i64 = 1893456000;

fn upload_dto() -> FileUploadDtos {
    FileUploadDtos {
        recipient_email: String::from("bob@example.com"),
        password: String::from("abc123"),
        expiration_date: String::from("2030-01-01T00:00:00Z"),
    }
}

fn seeded_ledger(now: i64) -> (Ledger, String) {
    let mut ledger = Ledger::new();
    let out = upload(
        &mut ledger,
        1,
        String::from("alice@example.com"),
        String::from("notes.txt"),
        &upload_dto(),
        b"hello world",
        &sender_pk(),
        &recipient_pk(),
        now,
    )
    .unwrap();
    assert_eq!(out.file_id, "0");
    assert_eq!(out.file_name, "notes.txt");
    assert_eq!(out.recipient_email, "bob@example.com");
    assert_eq!(out.expiration_date, EXPIRY_TS);
    assert_eq!(out.created_at, now);
    let shared_id = ledger.shares[0].shared_id.clone();
    assert_eq!(shared_id.len(), 36);
    (ledger, shared_id)
}

#[test]
fn upload_then_retrieve_scenario() {
    // Upload an hour before the deadline; wrong password, then two
    // successful retrievals, then one after expiry.
    let now = EXPIRY_TS - 3600;
    let (mut ledger, shared_id) = seeded_ledger(now);
    assert_eq!(ledger.shares[0].status, ShareStatus::Pending);

    let denied = retrieve(&mut ledger, &shared_id, b"wrong!", &recipient_sk(), now);
    assert_eq!(denied, Err(GateError::Denied));
    assert_eq!(ledger.shares[0].failed_attempts, 1);
    assert_eq!(ledger.shares[0].status, ShareStatus::Pending);

    let got = retrieve(&mut ledger, &shared_id, b"abc123", &recipient_sk(), now).unwrap();
    assert_eq!(got, b"hello world".to_vec());
    assert_eq!(ledger.shares[0].status, ShareStatus::Delivered);

    let again = retrieve(&mut ledger, &shared_id, b"abc123", &recipient_sk(), now + 60).unwrap();
    assert_eq!(again, b"hello world".to_vec());
    assert_eq!(ledger.shares[0].status, ShareStatus::Delivered);

    let late = retrieve(&mut ledger, &shared_id, b"abc123", &recipient_sk(), EXPIRY_TS);
    assert_eq!(late, Err(GateError::Denied));
    assert_eq!(ledger.shares[0].status, ShareStatus::Expired);

    let after = retrieve(&mut ledger, &shared_id, b"abc123", &recipient_sk(), EXPIRY_TS + 5);
    assert_eq!(after, Err(GateError::Denied));
}

#[test]
fn lockout_after_five_failures() {
    let now = EXPIRY_TS - 3600;
    let (mut ledger, shared_id) = seeded_ledger(now);
    for k in 1..=5u64 {
        let denied = retrieve(&mut ledger, &shared_id, b"nope!!", &recipient_sk(), now);
        assert_eq!(denied, Err(GateError::Denied));
        assert_eq!(ledger.shares[0].failed_attempts, k);
    }
    // The sixth attempt with the correct password still fails, and is
    // not counted as a password failure.
    let sixth = retrieve(&mut ledger, &shared_id, b"abc123", &recipient_sk(), now);
    assert_eq!(sixth, Err(GateError::Denied));
    assert_eq!(ledger.shares[0].failed_attempts, 5);
    assert_eq!(ledger.shares[0].status, ShareStatus::Pending);
}

#[test]
fn unknown_id_denied_like_wrong_password() {
    let now = EXPIRY_TS - 3600;
    let (mut ledger, shared_id) = seeded_ledger(now);
    let unknown = String::from("no-such-share");
    let denied = retrieve(&mut ledger, &unknown, b"abc123", &recipient_sk(), now);
    assert_eq!(denied, Err(GateError::Denied));
    let wrong = retrieve(&mut ledger, &shared_id, b"wrong!", &recipient_sk(), now);
    assert_eq!(wrong, Err(GateError::Denied));
}

#[test]
fn revoked_share_denies_and_stays() {
    let now = EXPIRY_TS - 3600;
    let (mut ledger, shared_id) = seeded_ledger(now);
    ledger.set_status(&shared_id, ShareStatus::Revoked).unwrap();
    let denied = retrieve(&mut ledger, &shared_id, b"abc123", &recipient_sk(), now);
    assert_eq!(denied, Err(GateError::Denied));
    assert_eq!(ledger.shares[0].status, ShareStatus::Revoked);
    // No way back to Pending, nor out of Revoked at all.
    assert_eq!(
        ledger.set_status(&shared_id, ShareStatus::Pending),
        Err(LedgerError::IllegalTransition)
    );
    assert_eq!(
        ledger.set_status(&shared_id, ShareStatus::Delivered),
        Err(LedgerError::IllegalTransition)
    );
}

#[test]
fn tampered_record_is_internal_error() {
    let now = EXPIRY_TS - 3600;
    let (mut ledger, shared_id) = seeded_ledger(now);
    let last = ledger.files[0].envelope.ciphertext.len() - 1;
    ledger.files[0].envelope.ciphertext[last] ^= 0x40;
    let out = retrieve(&mut ledger, &shared_id, b"abc123", &recipient_sk(), now);
    assert_eq!(out, Err(GateError::Internal));
    // A tamper is not a counted password failure.
    assert_eq!(ledger.shares[0].failed_attempts, 0);
}

#[test]
fn duplicate_shared_id_conflicts() {
    let now = EXPIRY_TS - 3600;
    let (mut ledger, shared_id) = seeded_ledger(now);
    let env = Envelope {
        nonce: vec![0; 12],
        ciphertext: vec![0; 32],
        wrapped_dek_sender: vec![0; 128],
        gated_wrapped_dek_recipient: vec![0; 144],
        gate_nonce: vec![0; 12],
        password_salt: vec![0; 16],
        password_verifier: vec![0; 32],
    };
    let dup = ledger.create_share(
        2,
        String::from("eve@example.com"),
        String::from("dup.txt"),
        3,
        env,
        EXPIRY_TS,
        now,
        shared_id,
        String::from("bob@example.com"),
    );
    assert_eq!(dup, Err(ConflictError));
    assert_eq!(ledger.files.len(), 1);
}

#[test]
fn unknown_id_in_ledger_ops() {
    let mut ledger = Ledger::new();
    let missing = String::from("missing");
    assert_eq!(
        ledger.increment_failed_attempt(&missing),
        Err(LedgerError::UnknownId)
    );
    assert_eq!(
        ledger.set_status(&missing, ShareStatus::Revoked),
        Err(LedgerError::UnknownId)
    );
}

fn plain_envelope() -> Envelope {
    Envelope {
        nonce: vec![1; 12],
        ciphertext: vec![2; 20],
        wrapped_dek_sender: vec![3; 128],
        gated_wrapped_dek_recipient: vec![4; 144],
        gate_nonce: vec![5; 12],
        password_salt: vec![6; 16],
        password_verifier: vec![7; 32],
    }
}

#[test]
fn listing_and_pagination() {
    let mut ledger = Ledger::new();
    let names = ["a.txt", "b.txt", "c.txt", "d.txt"];
    let owners = [1u64, 1, 2, 1];
    for (k, name) in names.iter().enumerate() {
        let id = ledger
            .create_share(
                owners[k],
                String::from("alice@example.com"),
                String::from(*name),
                10,
                plain_envelope(),
                EXPIRY_TS,
                100 + k as i64,
                format!("share-{}", k),
                String::from("bob@example.com"),
            )
            .unwrap();
        assert_eq!(id, k as u64);
    }
    let page1 = ledger.list_sent_by(1, 1, 2);
    assert_eq!(page1.len(), 2);
    assert_eq!(page1[0].file_id, "0");
    assert_eq!(page1[0].file_name, "a.txt");
    assert_eq!(page1[1].file_id, "1");
    let page2 = ledger.list_sent_by(1, 2, 2);
    assert_eq!(page2.len(), 1);
    assert_eq!(page2[0].file_id, "3");
    assert_eq!(page2[0].file_name, "d.txt");
    let page3 = ledger.list_sent_by(1, 3, 2);
    assert_eq!(page3.len(), 0);

    let received = ledger.list_received_by(&String::from("bob@example.com"), 1, 50);
    assert_eq!(received.len(), 4);
    assert_eq!(received[2].file_id, "2");
    assert_eq!(received[0].sender_email, "alice@example.com");
    let nobody = ledger.list_received_by(&String::from("carol@example.com"), 1, 50);
    assert_eq!(nobody.len(), 0);
}

#[test]
fn retrieve_request_validates_first() {
    let now = EXPIRY_TS - 3600;
    let (mut ledger, shared_id) = seeded_ledger(now);
    let malformed = RetrieveFileDto {
        shared_id: String::new(),
        password: String::from("abc123"),
    };
    assert_eq!(
        retrieve_request(&mut ledger, &malformed, &recipient_sk(), now),
        Err(RetrieveRequestError::Validation(ValidationIssue::SharedIdRequired))
    );
    assert_eq!(ledger.shares[0].failed_attempts, 0);
    let short_pw = RetrieveFileDto {
        shared_id: shared_id.clone(),
        password: String::from("abc"),
    };
    assert_eq!(
        retrieve_request(&mut ledger, &short_pw, &recipient_sk(), now),
        Err(RetrieveRequestError::Validation(ValidationIssue::PasswordTooShort))
    );
    // A short password is rejected by validation and is not a counted failure.
    assert_eq!(ledger.shares[0].failed_attempts, 0);
    let good = RetrieveFileDto {
        shared_id: shared_id.clone(),
        password: String::from("abc123"),
    };
    let got = retrieve_request(&mut ledger, &good, &recipient_sk(), now).unwrap();
    assert_eq!(got, b"hello world".to_vec());
    assert_eq!(ledger.shares[0].status, ShareStatus::Delivered);
}

#[test]
fn reaper_marks_expired_shares() {
    let mut ledger = Ledger::new();
    for k in 0..3u64 {
        ledger
            .create_share(
                k,
                String::from("alice@example.com"),
                format!("f{}.txt", k),
                1,
                plain_envelope(),
                // Deadlines 100, 200, 300.
                100 * (k as i64 + 1),
                1,
                format!("share-{}", k),
                String::from("bob@example.com"),
            )
            .unwrap();
    }
    ledger.set_status(&String::from("share-1"), ShareStatus::Revoked).unwrap();
    ledger.reap(150);
    assert_eq!(ledger.shares[0].status, ShareStatus::Expired);
    // Revoked is terminal: the reaper leaves it alone.
    assert_eq!(ledger.shares[1].status, ShareStatus::Revoked);
    // Deadline not reached yet.
    assert_eq!(ledger.shares[2].status, ShareStatus::Pending);
    ledger.reap(400);
    assert_eq!(ledger.shares[2].status, ShareStatus::Expired);
}
