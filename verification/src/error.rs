//! Error shapes surfaced to callers: the response body, the
//! application-level error messages, and the HTTP-status-carrying
//! error. Message texts are pinned down exactly, including the decimal
//! rendering of the one numeric message.
use vstd::prelude::*;

verus! {

/// The digit character of a value below ten.
pub open spec fn dec_digit(d: int) -> char {
    if d == 0 {
        '0'
    } else if d == 1 {
        '1'
    } else if d == 2 {
        '2'
    } else if d == 3 {
        '3'
    } else if d == 4 {
        '4'
    } else if d == 5 {
        '5'
    } else if d == 6 {
        '6'
    } else if d == 7 {
        '7'
    } else if d == 8 {
        '8'
    } else {
        '9'
    }
}

/// The decimal rendering of a non-negative number, most significant
/// digit first.
pub open spec fn dec_str_of(n: int) -> Seq<char>
    decreases n,
{
    if n < 10 {
        seq![dec_digit(n)]
    } else {
        dec_str_of(n / 10).push(dec_digit(n % 10))
    }
}

/// The one-character string of a decimal digit.
fn digit_str(d: u64) -> (r: &'static str)
    requires
        d < 10,
    ensures
        r@ == seq![dec_digit(d as int)],
{
    proof {
        reveal_strlit("0");
        reveal_strlit("1");
        reveal_strlit("2");
        reveal_strlit("3");
        reveal_strlit("4");
        reveal_strlit("5");
        reveal_strlit("6");
        reveal_strlit("7");
        reveal_strlit("8");
        reveal_strlit("9");
    }
    let r: &'static str = if d == 0 {
        "0"
    } else if d == 1 {
        "1"
    } else if d == 2 {
        "2"
    } else if d == 3 {
        "3"
    } else if d == 4 {
        "4"
    } else if d == 5 {
        "5"
    } else if d == 6 {
        "6"
    } else if d == 7 {
        "7"
    } else if d == 8 {
        "8"
    } else {
        "9"
    };
    proof {
        assert(r@ =~= seq![dec_digit(d as int)]);
    }
    r
}

/// Renders a number in decimal, proved against `dec_str_of`.
pub fn u64_to_decimal(n: u64) -> (r: String)
    ensures
        r@ == dec_str_of(n as int),
    decreases n,
{
    if n < 10 {
        let mut s = String::new();
        s.append(digit_str(n));
        proof {
            assert(s@ =~= dec_str_of(n as int));
        }
        s
    } else {
        let mut s = u64_to_decimal(n / 10);
        s.append(digit_str(n % 10));
        proof {
            assert(s@ =~= dec_str_of(n as int));
        }
        s
    }
}

/// The error body sent to a client: a status word and a message.
#[derive(Debug)]
pub struct ErrorResponse {
    /// The status word, `"fail"` for every denial.
    pub status: String,
    /// The human-readable message.
    pub message: String,
}

/// The application's error messages.
#[derive(PartialEq, Eq, Structural, Debug)]
pub enum ErrorMessage {
    EmptyPassword,
    ExceededMaxPasswordLenght(usize),
    InvalidHashFormat,
    HashingError,
    InvalidToken,
    WrongCredentials,
    EmailExist,
    UserNoLongerExist,
    TokenNotProvided,
}

/// The exact text of each error message.
pub open spec fn spec_message(m: ErrorMessage) -> Seq<char> {
    match m {
        ErrorMessage::WrongCredentials => "Email or password is wrong"@,
        ErrorMessage::EmailExist => "A user with this email already exists"@,
        ErrorMessage::UserNoLongerExist => "User belonging to this token no longer exists"@,
        ErrorMessage::EmptyPassword => "Password cannot be empty"@,
        ErrorMessage::HashingError => "Error while hashing password"@,
        ErrorMessage::InvalidHashFormat => "Invalid password hash format"@,
        ErrorMessage::ExceededMaxPasswordLenght(n) => "Password must not be more than "@
            + dec_str_of(n as int) + " characters"@,
        ErrorMessage::InvalidToken => "Authentication token is invalid or expired"@,
        ErrorMessage::TokenNotProvided => "You are not logged in, please provide a token"@,
    }
}

impl ErrorMessage {
    /// The human-readable text of the message.
    pub fn to_str(&self) -> (r: String)
        ensures
            r@ == spec_message(*self),
    {
        match self {
            ErrorMessage::WrongCredentials => String::from_str("Email or password is wrong"),
            ErrorMessage::EmailExist => String::from_str("A user with this email already exists"),
            ErrorMessage::UserNoLongerExist => String::from_str(
                "User belonging to this token no longer exists",
            ),
            ErrorMessage::EmptyPassword => String::from_str("Password cannot be empty"),
            ErrorMessage::HashingError => String::from_str("Error while hashing password"),
            ErrorMessage::InvalidHashFormat => String::from_str("Invalid password hash format"),
            ErrorMessage::ExceededMaxPasswordLenght(n) => {
                let mut s = String::from_str("Password must not be more than ");
                let digits = u64_to_decimal(*n as u64);
                s.append(digits.as_str());
                s.append(" characters");
                proof {
                    assert(s@ =~= spec_message(*self));
                }
                s
            },
            ErrorMessage::InvalidToken => String::from_str(
                "Authentication token is invalid or expired",
            ),
            ErrorMessage::TokenNotProvided => String::from_str(
                "You are not logged in, please provide a token",
            ),
        }
    }
}

/// An error carrying a message and the HTTP status code it is
/// reported with.
#[derive(Clone, Debug)]
pub struct HttpError {
    /// The message sent to the client.
    pub message: String,
    /// The HTTP status code.
    pub status: u16,
}

impl HttpError {
    /// An error with the given message and status code.
    pub fn new(message: String, status: u16) -> (r: HttpError)
        ensures
            r.message@ == message@,
            r.status == status,
    {
        HttpError { message, status }
    }

    /// An internal server error (status 500).
    pub fn server_error(message: String) -> (r: HttpError)
        ensures
            r.message@ == message@,
            r.status == 500,
    {
        HttpError { message, status: 500 }
    }

    /// A bad request (status 400).
    pub fn bad_reqest(message: String) -> (r: HttpError)
        ensures
            r.message@ == message@,
            r.status == 400,
    {
        HttpError { message, status: 400 }
    }

    /// A unique-constraint violation (status 409, a conflict).
    pub fn unique_constrain_violation(message: String) -> (r: HttpError)
        ensures
            r.message@ == message@,
            r.status == 409,
    {
        HttpError { message, status: 409 }
    }

    /// An unauthorized request (status 401).
    pub fn unauthorized(message: String) -> (r: HttpError)
        ensures
            r.message@ == message@,
            r.status == 401,
    {
        HttpError { message, status: 401 }
    }
}

} // verus!
