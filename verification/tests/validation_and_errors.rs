//! Unit tests of the request validations, the expiry manager's
//! transition table, the error messages and the model-to-DTO
//! mappings.
use secure_share::dtos::validate_expiration_date;
use secure_share::dtos::FileUploadDtos;
use secure_share::dtos::FilterEmailDto;
use secure_share::dtos::FilterUserDto;
use secure_share::dtos::LoginUserDto;
use secure_share::dtos::NameUpdateDto;
use secure_share::dtos::RegisterUserDto;
use secure_share::dtos::RequestQueryDto;
use secure_share::dtos::RetrieveFileDto;
use secure_share::dtos::SearchQueryByEmailDTO;
use secure_share::dtos::UserPasswordUpdateDto;
use secure_share::dtos::UserSendFileDto;
use secure_share::dtos::ValidationIssue;
use secure_share::error::u64_to_decimal;
use secure_share::error::ErrorMessage;
use secure_share::error::HttpError;
use secure_share::expiry::allowed_transition;
use secure_share::expiry::is_expired;
use secure_share::expiry::transition;
use secure_share::expiry::ShareStatus;
use secure_share::ledger::SendFileDetails;
use secure_share::models::User;

fn register(name: &str, email: &str, pw: &str, confirm: &str) -> RegisterUserDto {
    RegisterUserDto {
        name: String::from(name),
        email: String::from(email),
        password: String::from(pw),
        password_confirm: String::from(confirm),
    }
}

#[test]
fn register_validation() {
    assert_eq!(register("", "a@b.com", "abc123", "abc123").validate(),
        Some(ValidationIssue::NameRequired));
    assert_eq!(register("Ann", "", "abc123", "abc123").validate(),
        Some(ValidationIssue::EmailRequired));
    assert_eq!(register("Ann", "not-an-email", "abc123", "abc123").validate(),
        Some(ValidationIssue::EmailInvalid));
    assert_eq!(register("Ann", "a@b.com", "", "abc123").validate(),
        Some(ValidationIssue::PasswordRequired));
    assert_eq!(register("Ann", "a@b.com", "abc12", "abc12").validate(),
        Some(ValidationIssue::PasswordTooShort));
    assert_eq!(register("Ann", "a@b.com", "abc123", "").validate(),
        Some(ValidationIssue::PasswordConfirmRequired));
    assert_eq!(register("Ann", "a@b.com", "abc123", "abc124").validate(),
        Some(ValidationIssue::PasswordMismatch));
    assert_eq!(register("Ann", "a@b.com", "abc123", "abc123").validate(), None);
}

#[test]
fn login_validation() {
    let good = LoginUserDto { email: String::from("a@b.com"), password: String::from("abc123") };
    assert_eq!(good.validate(), None);
    let bad_email = LoginUserDto { email: String::from("a@"), password: String::from("abc123") };
    assert_eq!(bad_email.validate(), Some(ValidationIssue::EmailInvalid));
    let short = LoginUserDto { email: String::from("a@b.com"), password: String::from("abc") };
    assert_eq!(short.validate(), Some(ValidationIssue::PasswordTooShort));
}

#[test]
fn query_validation() {
    assert_eq!(RequestQueryDto { page: None, limit: None }.validate(), None);
    assert_eq!(RequestQueryDto { page: Some(1), limit: Some(50) }.validate(), None);
    assert_eq!(
        RequestQueryDto { page: Some(0), limit: Some(10) }.validate(),
        Some(ValidationIssue::PageOutOfRange)
    );
    assert_eq!(
        RequestQueryDto { page: Some(1), limit: Some(0) }.validate(),
        Some(ValidationIssue::LimitOutOfRange)
    );
    assert_eq!(
        RequestQueryDto { page: Some(1), limit: Some(51) }.validate(),
        Some(ValidationIssue::LimitOutOfRange)
    );
}

#[test]
fn expiration_validation() {
    let now: i64 = 1893456000 - 3600;
    assert_eq!(validate_expiration_date("", now), Some(ValidationIssue::ExpirationRequired));
    assert_eq!(
        validate_expiration_date("tomorrow", now),
        Some(ValidationIssue::ExpirationFormat)
    );
    assert_eq!(
        validate_expiration_date("2020-01-01T00:00:00Z", now),
        Some(ValidationIssue::ExpirationNotFuture)
    );
    // The boundary instant is not strictly in the future.
    assert_eq!(
        validate_expiration_date("2030-01-01T00:00:00Z", 1893456000),
        Some(ValidationIssue::ExpirationNotFuture)
    );
    assert_eq!(validate_expiration_date("2030-01-01T00:00:00Z", now), None);
}

#[test]
fn upload_validation() {
    let now: i64 = 1893456000 - 3600;
    let good = FileUploadDtos {
        recipient_email: String::from("bob@example.com"),
        password: String::from("abc123"),
        expiration_date: String::from("2030-01-01T00:00:00Z"),
    };
    assert_eq!(good.validate(now), None);
    let bad_email = FileUploadDtos { recipient_email: String::from("bob"), ..good.clone() };
    assert_eq!(bad_email.validate(now), Some(ValidationIssue::EmailInvalid));
    let short_pw = FileUploadDtos { password: String::from("abc"), ..good.clone() };
    assert_eq!(short_pw.validate(now), Some(ValidationIssue::PasswordTooShort));
    let past = FileUploadDtos {
        expiration_date: String::from("2000-01-01T00:00:00Z"),
        ..good.clone()
    };
    assert_eq!(past.validate(now), Some(ValidationIssue::ExpirationNotFuture));
}

#[test]
fn retrieve_validation() {
    let good = RetrieveFileDto {
        shared_id: String::from("some-share"),
        password: String::from("abc123"),
    };
    assert_eq!(good.validate(), None);
    let no_id = RetrieveFileDto { shared_id: String::new(), password: String::from("abc123") };
    assert_eq!(no_id.validate(), Some(ValidationIssue::SharedIdRequired));
    let short = RetrieveFileDto {
        shared_id: String::from("some-share"),
        password: String::from("ab"),
    };
    assert_eq!(short.validate(), Some(ValidationIssue::PasswordTooShort));
}

#[test]
fn password_update_validation() {
    let good = UserPasswordUpdateDto {
        new_password: String::from("newpass"),
        new_password_confirm: String::from("newpass"),
        old_password: String::from("oldpass"),
    };
    assert_eq!(good.validate(), None);
    let mismatch = UserPasswordUpdateDto {
        new_password_confirm: String::from("newpazz"),
        ..good.clone()
    };
    assert_eq!(mismatch.validate(), Some(ValidationIssue::NewPasswordMismatch));
    let no_old = UserPasswordUpdateDto { old_password: String::new(), ..good.clone() };
    assert_eq!(no_old.validate(), Some(ValidationIssue::OldPasswordRequired));
}

#[test]
fn name_and_search_validation() {
    assert_eq!(NameUpdateDto { name: String::from("Ann") }.validate(), None);
    assert_eq!(
        NameUpdateDto { name: String::new() }.validate(),
        Some(ValidationIssue::NameRequired)
    );
    assert_eq!(SearchQueryByEmailDTO { query: String::from("bob") }.validate(), None);
    assert_eq!(
        SearchQueryByEmailDTO { query: String::new() }.validate(),
        Some(ValidationIssue::QueryRequired)
    );
}

#[test]
fn expiry_predicate_and_transition() {
    assert!(!is_expired(100, 99));
    assert!(is_expired(100, 100));
    assert!(is_expired(100, 101));
    assert_eq!(transition(ShareStatus::Pending, 100, 101), ShareStatus::Expired);
    assert_eq!(transition(ShareStatus::Delivered, 100, 101), ShareStatus::Expired);
    assert_eq!(transition(ShareStatus::Pending, 100, 99), ShareStatus::Pending);
    assert_eq!(transition(ShareStatus::Revoked, 100, 101), ShareStatus::Revoked);
}

#[test]
fn transition_table() {
    assert!(allowed_transition(ShareStatus::Pending, ShareStatus::Delivered));
    assert!(allowed_transition(ShareStatus::Pending, ShareStatus::Expired));
    assert!(allowed_transition(ShareStatus::Pending, ShareStatus::Revoked));
    assert!(allowed_transition(ShareStatus::Delivered, ShareStatus::Expired));
    assert!(allowed_transition(ShareStatus::Expired, ShareStatus::Expired));
    assert!(!allowed_transition(ShareStatus::Delivered, ShareStatus::Pending));
    assert!(!allowed_transition(ShareStatus::Expired, ShareStatus::Pending));
    assert!(!allowed_transition(ShareStatus::Revoked, ShareStatus::Pending));
    assert!(!allowed_transition(ShareStatus::Revoked, ShareStatus::Expired));
    assert!(!allowed_transition(ShareStatus::Expired, ShareStatus::Delivered));
}

#[test]
fn error_messages_exact() {
    assert_eq!(ErrorMessage::WrongCredentials.to_str(), "Email or password is wrong");
    assert_eq!(ErrorMessage::EmailExist.to_str(), "A user with this email already exists");
    assert_eq!(
        ErrorMessage::UserNoLongerExist.to_str(),
        "User belonging to this token no longer exists"
    );
    assert_eq!(ErrorMessage::EmptyPassword.to_str(), "Password cannot be empty");
    assert_eq!(ErrorMessage::HashingError.to_str(), "Error while hashing password");
    assert_eq!(ErrorMessage::InvalidHashFormat.to_str(), "Invalid password hash format");
    assert_eq!(
        ErrorMessage::ExceededMaxPasswordLenght(64).to_str(),
        "Password must not be more than 64 characters"
    );
    assert_eq!(
        ErrorMessage::InvalidToken.to_str(),
        "Authentication token is invalid or expired"
    );
    assert_eq!(
        ErrorMessage::TokenNotProvided.to_str(),
        "You are not logged in, please provide a token"
    );
}

#[test]
fn decimal_rendering() {
    assert_eq!(u64_to_decimal(0), "0");
    assert_eq!(u64_to_decimal(7), "7");
    assert_eq!(u64_to_decimal(10), "10");
    assert_eq!(u64_to_decimal(1234567890), "1234567890");
    assert_eq!(u64_to_decimal(u64::MAX), "18446744073709551615");
}

#[test]
fn http_error_constructors() {
    let e = HttpError::new(String::from("boom"), 418);
    assert_eq!(e.message, "boom");
    assert_eq!(e.status, 418);
    assert_eq!(HttpError::server_error(String::from("x")).status, 500);
    assert_eq!(HttpError::bad_reqest(String::from("x")).status, 400);
    assert_eq!(HttpError::unique_constrain_violation(String::from("x")).status, 409);
    assert_eq!(HttpError::unauthorized(String::from("x")).status, 401);
}

fn sample_user() -> User {
    User {
        id: 7,
        name: String::from("Ann"),
        email: String::from("ann@example.com"),
        password: String::from("hash"),
        public_key: Some(String::from("PEMPEM")),
        created_at: Some(11),
        updated_at: Some(22),
    }
}

#[test]
fn filter_user_mapping() {
    let dto = FilterUserDto::filter_user(&sample_user());
    assert_eq!(dto.id, "7");
    assert_eq!(dto.name, "Ann");
    assert_eq!(dto.email, "ann@example.com");
    assert_eq!(dto.public_key, Some(String::from("PEMPEM")));
    assert_eq!(dto.created_at, 11);
    assert_eq!(dto.updated_at, 22);
}

#[test]
fn filter_email_mapping() {
    let users = vec![sample_user(), User { email: String::from("b@c.de"), ..sample_user() }];
    let emails = FilterEmailDto::filter_emails(&users);
    assert_eq!(emails.len(), 2);
    assert_eq!(emails[0].email, "ann@example.com");
    assert_eq!(emails[1].email, "b@c.de");
}

#[test]
fn filter_send_file_mapping() {
    let rows = vec![SendFileDetails {
        file_id: String::from("3"),
        file_name: String::from("x.txt"),
        recipient_email: String::from("bob@example.com"),
        expiration_date: 99,
        created_at: 42,
    }];
    let dtos = UserSendFileDto::filter_send_user_files(&rows);
    assert_eq!(dtos.len(), 1);
    assert_eq!(dtos[0].file_id, "3");
    assert_eq!(dtos[0].file_name, "x.txt");
    assert_eq!(dtos[0].recipient_email, "bob@example.com");
    assert_eq!(dtos[0].expiration_date, 99);
    assert_eq!(dtos[0].created_at, 42);
}
