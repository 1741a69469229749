//! Request and response shapes, each with a verified validation
//! whose contract pins down exactly which rule fails first, and the
//! mappings from stored models to the public-facing shapes.
use crate::error::dec_str_of;
use crate::error::u64_to_decimal;
use crate::ledger::ReceiverFileDetails;
use crate::ledger::SendFileDetails;
use crate::models::User;
use vstd::prelude::*;

verus! {

/// Which validation rule a request broke; the first broken rule in
/// field order is reported.
#[derive(Clone, Copy, PartialEq, Eq, Structural, Debug)]
pub enum ValidationIssue {
    NameRequired,
    EmailRequired,
    EmailInvalid,
    PasswordRequired,
    PasswordTooShort,
    PasswordConfirmRequired,
    PasswordMismatch,
    PageOutOfRange,
    LimitOutOfRange,
    NewPasswordRequired,
    NewPasswordTooShort,
    NewPasswordConfirmRequired,
    NewPasswordConfirmTooShort,
    NewPasswordMismatch,
    OldPasswordRequired,
    OldPasswordTooShort,
    QueryRequired,
    SharedIdRequired,
    ExpirationRequired,
    ExpirationFormat,
    ExpirationNotFuture,
}

/// Whether a string is a valid email address, as the HTML5 form rules
/// have it.
pub uninterp spec fn email_ok(s: Seq<char>) -> bool;

/// Relies on validator::ValidateEmail::validate_email (the HTML5
/// email shape): a function of the string alone.
#[verifier::external_body]
fn email_is_valid(s: &str) -> (r: bool)
    ensures
        r == email_ok(s@),
{
    validator::ValidateEmail::validate_email(&s)
}

/// The Unix timestamp an RFC 3339 string denotes, or `None` where the
/// string does not parse as one.
pub uninterp spec fn rfc3339_ts(s: Seq<char>) -> Option<i64>;

/// Relies on chrono::DateTime::parse_from_rfc3339 and
/// chrono::DateTime::timestamp: deterministic in the string, with
/// `None` exactly on the strings that do not parse.
#[verifier::external_body]
pub(crate) fn parse_rfc3339(s: &str) -> (r: Option<i64>)
    ensures
        r == rfc3339_ts(s@),
{
    match chrono::DateTime::parse_from_rfc3339(s) {
        Ok(d) => Some(d.timestamp()),
        Err(_) => None,
    }
}

/// DTO of a registration request.
#[derive(Debug, Clone)]
pub struct RegisterUserDto {
    pub name: String,
    pub email: String,
    pub password: String,
    pub password_confirm: String,
}

/// The first rule a registration request breaks, if any: name
/// required; email required and well-formed; password at least six
/// characters; confirmation present and equal to the password.
pub open spec fn spec_validate_register(d: RegisterUserDto) -> Option<ValidationIssue> {
    if d.name@.len() < 1 {
        Some(ValidationIssue::NameRequired)
    } else if d.email@.len() < 1 {
        Some(ValidationIssue::EmailRequired)
    } else if !email_ok(d.email@) {
        Some(ValidationIssue::EmailInvalid)
    } else if d.password@.len() < 1 {
        Some(ValidationIssue::PasswordRequired)
    } else if d.password@.len() < 6 {
        Some(ValidationIssue::PasswordTooShort)
    } else if d.password_confirm@.len() < 1 {
        Some(ValidationIssue::PasswordConfirmRequired)
    } else if d.password_confirm@ != d.password@ {
        Some(ValidationIssue::PasswordMismatch)
    } else {
        None
    }
}

impl RegisterUserDto {
    /// Checks the registration rules; `None` means the request is
    /// acceptable.
    pub fn validate(&self) -> (r: Option<ValidationIssue>)
        ensures
            r == spec_validate_register(*self),
    {
        if self.name.as_str().unicode_len() < 1 {
            Some(ValidationIssue::NameRequired)
        } else if self.email.as_str().unicode_len() < 1 {
            Some(ValidationIssue::EmailRequired)
        } else if !email_is_valid(self.email.as_str()) {
            Some(ValidationIssue::EmailInvalid)
        } else if self.password.as_str().unicode_len() < 1 {
            Some(ValidationIssue::PasswordRequired)
        } else if self.password.as_str().unicode_len() < 6 {
            Some(ValidationIssue::PasswordTooShort)
        } else if self.password_confirm.as_str().unicode_len() < 1 {
            Some(ValidationIssue::PasswordConfirmRequired)
        } else if !(self.password_confirm == self.password) {
            Some(ValidationIssue::PasswordMismatch)
        } else {
            None
        }
    }
}

/// DTO of a login request.
#[derive(Debug, Clone)]
pub struct LoginUserDto {
    pub email: String,
    pub password: String,
}

/// The first rule a login request breaks, if any.
pub open spec fn spec_validate_login(d: LoginUserDto) -> Option<ValidationIssue> {
    if d.email@.len() < 1 {
        Some(ValidationIssue::EmailRequired)
    } else if !email_ok(d.email@) {
        Some(ValidationIssue::EmailInvalid)
    } else if d.password@.len() < 1 {
        Some(ValidationIssue::PasswordRequired)
    } else if d.password@.len() < 6 {
        Some(ValidationIssue::PasswordTooShort)
    } else {
        None
    }
}

impl LoginUserDto {
    /// Checks the login rules; `None` means the request is acceptable.
    pub fn validate(&self) -> (r: Option<ValidationIssue>)
        ensures
            r == spec_validate_login(*self),
    {
        if self.email.as_str().unicode_len() < 1 {
            Some(ValidationIssue::EmailRequired)
        } else if !email_is_valid(self.email.as_str()) {
            Some(ValidationIssue::EmailInvalid)
        } else if self.password.as_str().unicode_len() < 1 {
            Some(ValidationIssue::PasswordRequired)
        } else if self.password.as_str().unicode_len() < 6 {
            Some(ValidationIssue::PasswordTooShort)
        } else {
            None
        }
    }
}

/// Pagination query: page numbers start at one, page sizes run from
/// one to fifty.
#[derive(Debug, Clone)]
pub struct RequestQueryDto {
    pub page: Option<usize>,
    pub limit: Option<usize>,
}

/// The first pagination rule broken, if any.
pub open spec fn spec_validate_query(d: RequestQueryDto) -> Option<ValidationIssue> {
    if d.page is Some && d.page->0 < 1 {
        Some(ValidationIssue::PageOutOfRange)
    } else if d.limit is Some && (d.limit->0 < 1 || d.limit->0 > 50) {
        Some(ValidationIssue::LimitOutOfRange)
    } else {
        None
    }
}

impl RequestQueryDto {
    /// Checks the pagination rules.
    pub fn validate(&self) -> (r: Option<ValidationIssue>)
        ensures
            r == spec_validate_query(*self),
    {
        match self.page {
            Some(p) if p < 1 => {
                return Some(ValidationIssue::PageOutOfRange);
            },
            _ => {},
        }
        match self.limit {
            Some(l) if l < 1 || l > 50 => {
                return Some(ValidationIssue::LimitOutOfRange);
            },
            _ => {},
        }
        None
    }
}

/// Public-facing view of a user.
#[derive(Debug, Clone)]
pub struct FilterUserDto {
    pub id: String,
    pub name: String,
    pub email: String,
    pub public_key: Option<String>,
    pub created_at: i64,
    pub updated_at: i64,
}

impl FilterUserDto {
    /// Maps a stored user to its public view; the id is rendered in
    /// decimal. The timestamps must have been recorded.
    pub fn filter_user(user: &User) -> (r: FilterUserDto)
        requires
            user.created_at is Some,
            user.updated_at is Some,
        ensures
            r.id@ == dec_str_of(user.id as int),
            r.name@ == user.name@,
            r.email@ == user.email@,
            r.public_key == user.public_key,
            r.created_at == user.created_at->0,
            r.updated_at == user.updated_at->0,
    {
        FilterUserDto {
            id: u64_to_decimal(user.id),
            name: user.name.clone(),
            email: user.email.clone(),
            public_key: match &user.public_key {
                Some(k) => Some(k.clone()),
                None => None,
            },
            created_at: match user.created_at {
                Some(t) => t,
                None => 0,
            },
            updated_at: match user.updated_at {
                Some(t) => t,
                None => 0,
            },
        }
    }
}

/// Wrapper of a filtered user.
#[derive(Debug, Clone)]
pub struct UserData {
    pub user: FilterUserDto,
}

/// Response carrying one user.
#[derive(Debug, Clone)]
pub struct UserResponseDto {
    pub status: String,
    pub data: UserData,
}

/// Public-facing view of a sent file.
#[derive(Debug, Clone)]
pub struct UserSendFileDto {
    pub file_id: String,
    pub file_name: String,
    pub recipient_email: String,
    pub expiration_date: i64,
    pub created_at: i64,
}

/// The public view of one sent-file row.
pub open spec fn spec_filter_send(d: SendFileDetails) -> UserSendFileDto {
    UserSendFileDto {
        file_id: d.file_id,
        file_name: d.file_name,
        recipient_email: d.recipient_email,
        expiration_date: d.expiration_date,
        created_at: d.created_at,
    }
}

impl UserSendFileDto {
    /// Maps one sent-file row to its public view.
    pub fn filter_send_user_file(file_data: &SendFileDetails) -> (r: UserSendFileDto)
        ensures
            r == spec_filter_send(*file_data),
    {
        UserSendFileDto {
            file_id: file_data.file_id.clone(),
            file_name: file_data.file_name.clone(),
            recipient_email: file_data.recipient_email.clone(),
            expiration_date: file_data.expiration_date,
            created_at: file_data.created_at,
        }
    }

    /// Maps a list of sent-file rows, in order.
    pub fn filter_send_user_files(user: &Vec<SendFileDetails>) -> (r: Vec<UserSendFileDto>)
        ensures
            r@.len() == user@.len(),
            forall|i: int| 0 <= i < user@.len() ==> r@[i] == spec_filter_send(#[trigger] user@[i]),
    {
        let mut out: Vec<UserSendFileDto> = Vec::new();
        let mut i: usize = 0;
        while i < user.len()
            invariant
                i <= user@.len(),
                out@.len() == i,
                forall|j: int| 0 <= j < i ==> out@[j] == spec_filter_send(#[trigger] user@[j]),
            decreases user@.len() - i,
        {
            out.push(UserSendFileDto::filter_send_user_file(&user[i]));
            i = i + 1;
        }
        out
    }
}

/// Response carrying a page of sent files.
#[derive(Debug, Clone)]
pub struct UserSendFileListResponseDto {
    pub status: String,
    pub files: Vec<UserSendFileDto>,
    pub results: i64,
}

/// Public-facing view of a received file.
#[derive(Debug, Clone)]
pub struct UserReceiveFileDto {
    pub file_id: String,
    pub file_name: String,
    pub sender_email: String,
    pub expiration_date: i64,
    pub created_at: i64,
}

/// The public view of one received-file row.
pub open spec fn spec_filter_receive(d: ReceiverFileDetails) -> UserReceiveFileDto {
    UserReceiveFileDto {
        file_id: d.file_id,
        file_name: d.file_name,
        sender_email: d.sender_email,
        expiration_date: d.expiration_date,
        created_at: d.created_at,
    }
}

impl UserReceiveFileDto {
    /// Maps one received-file row to its public view.
    pub fn filter_receive_user_file(file_data: &ReceiverFileDetails) -> (r: UserReceiveFileDto)
        ensures
            r == spec_filter_receive(*file_data),
    {
        UserReceiveFileDto {
            file_id: file_data.file_id.clone(),
            file_name: file_data.file_name.clone(),
            sender_email: file_data.sender_email.clone(),
            expiration_date: file_data.expiration_date,
            created_at: file_data.created_at,
        }
    }

    /// Maps a list of received-file rows, in order.
    pub fn filter_receive_user_files(user: &Vec<ReceiverFileDetails>) -> (r: Vec<
        UserReceiveFileDto,
    >)
        ensures
            r@.len() == user@.len(),
            forall|i: int|
                0 <= i < user@.len() ==> r@[i] == spec_filter_receive(#[trigger] user@[i]),
    {
        let mut out: Vec<UserReceiveFileDto> = Vec::new();
        let mut i: usize = 0;
        while i < user.len()
            invariant
                i <= user@.len(),
                out@.len() == i,
                forall|j: int| 0 <= j < i ==> out@[j] == spec_filter_receive(#[trigger] user@[j]),
            decreases user@.len() - i,
        {
            out.push(UserReceiveFileDto::filter_receive_user_file(&user[i]));
            i = i + 1;
        }
        out
    }
}

/// Response carrying a page of received files.
#[derive(Debug, Clone)]
pub struct UserReceiveFileListResponseDto {
    pub status: String,
    pub files: Vec<UserReceiveFileDto>,
    pub results: i64,
}

/// Response of a successful login.
#[derive(Debug, Clone)]
pub struct UserLoginResponseDto {
    pub status: String,
    pub token: String,
}

/// General status-and-message response.
#[derive(Debug, Clone)]
pub struct Response {
    pub status: &'static str,
    pub message: String,
}

/// DTO of a name-change request.
#[derive(Debug, Clone)]
pub struct NameUpdateDto {
    pub name: String,
}

/// The rule a name change breaks, if any.
pub open spec fn spec_validate_name_update(d: NameUpdateDto) -> Option<ValidationIssue> {
    if d.name@.len() < 1 {
        Some(ValidationIssue::NameRequired)
    } else {
        None
    }
}

impl NameUpdateDto {
    /// Checks the name-change rule.
    pub fn validate(&self) -> (r: Option<ValidationIssue>)
        ensures
            r == spec_validate_name_update(*self),
    {
        if self.name.as_str().unicode_len() < 1 {
            Some(ValidationIssue::NameRequired)
        } else {
            None
        }
    }
}

/// DTO of a password-change request.
#[derive(Debug, Clone)]
pub struct UserPasswordUpdateDto {
    pub new_password: String,
    pub new_password_confirm: String,
    pub old_password: String,
}

/// The first rule a password change breaks, if any.
pub open spec fn spec_validate_password_update(d: UserPasswordUpdateDto) -> Option<
    ValidationIssue,
> {
    if d.new_password@.len() < 1 {
        Some(ValidationIssue::NewPasswordRequired)
    } else if d.new_password@.len() < 6 {
        Some(ValidationIssue::NewPasswordTooShort)
    } else if d.new_password_confirm@.len() < 1 {
        Some(ValidationIssue::NewPasswordConfirmRequired)
    } else if d.new_password_confirm@.len() < 6 {
        Some(ValidationIssue::NewPasswordConfirmTooShort)
    } else if d.new_password_confirm@ != d.new_password@ {
        Some(ValidationIssue::NewPasswordMismatch)
    } else if d.old_password@.len() < 1 {
        Some(ValidationIssue::OldPasswordRequired)
    } else if d.old_password@.len() < 6 {
        Some(ValidationIssue::OldPasswordTooShort)
    } else {
        None
    }
}

impl UserPasswordUpdateDto {
    /// Checks the password-change rules.
    pub fn validate(&self) -> (r: Option<ValidationIssue>)
        ensures
            r == spec_validate_password_update(*self),
    {
        if self.new_password.as_str().unicode_len() < 1 {
            Some(ValidationIssue::NewPasswordRequired)
        } else if self.new_password.as_str().unicode_len() < 6 {
            Some(ValidationIssue::NewPasswordTooShort)
        } else if self.new_password_confirm.as_str().unicode_len() < 1 {
            Some(ValidationIssue::NewPasswordConfirmRequired)
        } else if self.new_password_confirm.as_str().unicode_len() < 6 {
            Some(ValidationIssue::NewPasswordConfirmTooShort)
        } else if !(self.new_password_confirm == self.new_password) {
            Some(ValidationIssue::NewPasswordMismatch)
        } else if self.old_password.as_str().unicode_len() < 1 {
            Some(ValidationIssue::OldPasswordRequired)
        } else if self.old_password.as_str().unicode_len() < 6 {
            Some(ValidationIssue::OldPasswordTooShort)
        } else {
            None
        }
    }
}

/// DTO of an email search.
#[derive(Debug, Clone)]
pub struct SearchQueryByEmailDTO {
    pub query: String,
}

/// The rule an email search breaks, if any.
pub open spec fn spec_validate_search(d: SearchQueryByEmailDTO) -> Option<ValidationIssue> {
    if d.query@.len() < 1 {
        Some(ValidationIssue::QueryRequired)
    } else {
        None
    }
}

impl SearchQueryByEmailDTO {
    /// Checks the search rule.
    pub fn validate(&self) -> (r: Option<ValidationIssue>)
        ensures
            r == spec_validate_search(*self),
    {
        if self.query.as_str().unicode_len() < 1 {
            Some(ValidationIssue::QueryRequired)
        } else {
            None
        }
    }
}

/// Public-facing email entry.
#[derive(Debug, Clone)]
pub struct FilterEmailDto {
    pub email: String,
}

impl FilterEmailDto {
    /// Maps a user to its email entry.
    pub fn filter_email(user: &User) -> (r: FilterEmailDto)
        ensures
            r.email@ == user.email@,
    {
        FilterEmailDto { email: user.email.clone() }
    }

    /// Maps a list of users to their email entries, in order.
    pub fn filter_emails(user: &Vec<User>) -> (r: Vec<FilterEmailDto>)
        ensures
            r@.len() == user@.len(),
            forall|i: int| 0 <= i < user@.len() ==> r@[i].email@ == (#[trigger] user@[i]).email@,
    {
        let mut out: Vec<FilterEmailDto> = Vec::new();
        let mut i: usize = 0;
        while i < user.len()
            invariant
                i <= user@.len(),
                out@.len() == i,
                forall|j: int| 0 <= j < i ==> out@[j].email@ == (#[trigger] user@[j]).email@,
            decreases user@.len() - i,
        {
            out.push(FilterEmailDto::filter_email(&user[i]));
            i = i + 1;
        }
        out
    }
}

/// Response carrying a list of emails.
#[derive(Debug, Clone)]
pub struct EmailListResponseDto {
    pub status: String,
    pub emails: Vec<FilterEmailDto>,
}

/// DTO of an upload request.
#[derive(Debug, Clone)]
pub struct FileUploadDtos {
    pub recipient_email: String,
    pub password: String,
    pub expiration_date: String,
}

/// The first rule an expiration date breaks against the injected
/// clock, if any: it must be present, parse as RFC 3339, and lie
/// strictly in the future.
pub open spec fn spec_validate_expiration(s: Seq<char>, now: i64) -> Option<ValidationIssue> {
    if s.len() == 0 {
        Some(ValidationIssue::ExpirationRequired)
    } else {
        match rfc3339_ts(s) {
            None => Some(ValidationIssue::ExpirationFormat),
            Some(ts) => if ts <= now {
                Some(ValidationIssue::ExpirationNotFuture)
            } else {
                None
            },
        }
    }
}

/// Validates an expiration date for file uploads against the injected
/// clock.
pub fn validate_expiration_date(expiration_date: &str, now: i64) -> (r: Option<ValidationIssue>)
    ensures
        r == spec_validate_expiration(expiration_date@, now),
{
    if expiration_date.unicode_len() == 0 {
        return Some(ValidationIssue::ExpirationRequired);
    }
    match parse_rfc3339(expiration_date) {
        None => Some(ValidationIssue::ExpirationFormat),
        Some(ts) => {
            if ts <= now {
                Some(ValidationIssue::ExpirationNotFuture)
            } else {
                None
            }
        },
    }
}

/// The first rule an upload request breaks, if any.
pub open spec fn spec_validate_upload(d: FileUploadDtos, now: i64) -> Option<ValidationIssue> {
    if !email_ok(d.recipient_email@) {
        Some(ValidationIssue::EmailInvalid)
    } else if d.password@.len() < 1 {
        Some(ValidationIssue::PasswordRequired)
    } else if d.password@.len() < 6 {
        Some(ValidationIssue::PasswordTooShort)
    } else {
        spec_validate_expiration(d.expiration_date@, now)
    }
}

impl FileUploadDtos {
    /// Checks the upload rules against the injected clock.
    pub fn validate(&self, now: i64) -> (r: Option<ValidationIssue>)
        ensures
            r == spec_validate_upload(*self, now),
    {
        if !email_is_valid(self.recipient_email.as_str()) {
            Some(ValidationIssue::EmailInvalid)
        } else if self.password.as_str().unicode_len() < 1 {
            Some(ValidationIssue::PasswordRequired)
        } else if self.password.as_str().unicode_len() < 6 {
            Some(ValidationIssue::PasswordTooShort)
        } else {
            validate_expiration_date(self.expiration_date.as_str(), now)
        }
    }
}

/// DTO of a retrieve request.
#[derive(Debug, Clone)]
pub struct RetrieveFileDto {
    pub shared_id: String,
    pub password: String,
}

/// The first rule a retrieve request breaks, if any.
pub open spec fn spec_validate_retrieve(d: RetrieveFileDto) -> Option<ValidationIssue> {
    if d.shared_id@.len() < 1 {
        Some(ValidationIssue::SharedIdRequired)
    } else if d.password@.len() < 1 {
        Some(ValidationIssue::PasswordRequired)
    } else if d.password@.len() < 6 {
        Some(ValidationIssue::PasswordTooShort)
    } else {
        None
    }
}

impl RetrieveFileDto {
    /// Checks the retrieve rules.
    pub fn validate(&self) -> (r: Option<ValidationIssue>)
        ensures
            r == spec_validate_retrieve(*self),
    {
        if self.shared_id.as_str().unicode_len() < 1 {
            Some(ValidationIssue::SharedIdRequired)
        } else if self.password.as_str().unicode_len() < 1 {
            Some(ValidationIssue::PasswordRequired)
        } else if self.password.as_str().unicode_len() < 6 {
            Some(ValidationIssue::PasswordTooShort)
        } else {
            None
        }
    }
}

} // verus!
