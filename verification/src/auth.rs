use crate::text::same_text;
use vstd::prelude::*;
use vstd::string::StrSliceExecFns;

verus! {

/// A user whom the server knows.
#[derive(Debug)]
pub struct User {
    pub name: String,
}

/// Why a request carries no user.
#[derive(Clone, Copy, Debug, PartialEq, Eq)]
pub enum AuthError {
    /// The request has no authorization header.
    MissingHeader,
    /// The header is not the word `Bearer`, one space and a token.
    InvalidHeader,
    /// No user has the token.
    InvalidToken,
}

impl AuthError {
    /// The reason as the text that is sent back.
    pub fn message(&self) -> (text: String)
        ensures
            text@ == match self {
                AuthError::MissingHeader => "missing authorization header"@,
                AuthError::InvalidHeader => "invalid authorization header"@,
                AuthError::InvalidToken => "invalid token"@,
            },
    {
        match self {
            AuthError::MissingHeader => "missing authorization header".to_owned(),
            AuthError::InvalidHeader => "invalid authorization header".to_owned(),
            AuthError::InvalidToken => "invalid token".to_owned(),
        }
    }
}

/// Whether a character is white space: whether it has the Unicode property
/// White_Space, which is what `char::is_whitespace` tests.
pub open spec fn is_whitespace(c: char) -> bool {
    ||| '\u{9}' <= c <= '\u{d}'
    ||| c == ' '
    ||| c == '\u{85}'
    ||| c == '\u{a0}'
    ||| c == '\u{1680}'
    ||| '\u{2000}' <= c <= '\u{200a}'
    ||| c == '\u{2028}'
    ||| c == '\u{2029}'
    ||| c == '\u{202f}'
    ||| c == '\u{205f}'
    ||| c == '\u{3000}'
}

/// How many characters of white space a text begins with.
pub open spec fn leading_space(text: Seq<char>) -> nat
    decreases text.len(),
{
    if text.len() > 0 && is_whitespace(text[0]) {
        1 + leading_space(text.skip(1))
    } else {
        0
    }
}

/// How many characters of white space a text ends with.
pub open spec fn trailing_space(text: Seq<char>) -> nat
    decreases text.len(),
{
    if text.len() > 0 && is_whitespace(text.last()) {
        1 + trailing_space(text.drop_last())
    } else {
        0
    }
}

/// A text without the white space that it begins and ends with.
pub open spec fn trimmed(text: Seq<char>) -> Seq<char> {
    if leading_space(text) >= text.len() {
        Seq::empty()
    } else {
        text.subrange(leading_space(text) as int, text.len() - trailing_space(text))
    }
}

/// Removes the white space around a text with `str::trim`.
///
/// Trusted: `trim` takes away the longest runs of white space at both
/// ends, and nothing else.
#[verifier::external_body]
fn trim(text: &str) -> (inner: &str)
    ensures
        inner@ == trimmed(text@),
{
    text.trim()
}

/// The token of a header without white space around it: what follows
/// `Bearer` and one space, if the header has that form and the token holds
/// no space.
pub open spec fn token_in(text: Seq<char>) -> Option<Seq<char>> {
    if text.len() >= 7 && text.take(7) == "Bearer "@ && !text.skip(7).contains(' ') {
        Some(text.skip(7))
    } else {
        None
    }
}

/// The token of an authorization header, read once the white space around
/// the header is taken away.
pub open spec fn bearer_token(header: Seq<char>) -> Option<Seq<char>> {
    token_in(trimmed(header))
}

/// The user who has the token, if any. One token is known.
pub open spec fn token_owner(token: Seq<char>) -> Option<Seq<char>> {
    if token == "valid_token"@ {
        Some("valid_user"@)
    } else {
        None
    }
}

/// Who sent a request with the authorization header `header`.
pub open spec fn authenticated(header: Option<Seq<char>>) -> Result<Seq<char>, AuthError> {
    match header {
        None => Err(AuthError::MissingHeader),
        Some(text) => match bearer_token(text) {
            None => Err(AuthError::InvalidHeader),
            Some(token) => match token_owner(token) {
                Some(name) => Ok(name),
                None => Err(AuthError::InvalidToken),
            },
        },
    }
}

/// Looks the user of a token up.
pub fn user_of_token(token: &str) -> (name: Option<String>)
    ensures
        match name {
            Some(found) => token_owner(token@) == Some(found@),
            None => token_owner(token@) is None,
        },
{
    if same_text(token, "valid_token") {
        Some("valid_user".to_owned())
    } else {
        None
    }
}

/// Reads the token from a header that has no white space around it.
pub fn token_of(text: &str) -> (token: Option<&str>)
    ensures
        match token {
            Some(found) => token_in(text@) == Some(found@),
            None => token_in(text@) is None,
        },
{
    let n = text.unicode_len();
    proof {
        reveal_strlit("Bearer ");
    }
    if n < 7 {
        return None;
    }
    assert(text@.take(7) == text@.subrange(0, 7));
    if !same_text(text.substring_char(0, 7), "Bearer ") {
        return None;
    }
    let mut i: usize = 7;
    while i < n
        invariant
            7 <= i <= n,
            n == text@.len(),
            text@.take(7) == "Bearer "@,
            forall|j: int| 7 <= j < i ==> text@[j] != ' ',
        decreases n - i,
    {
        if text.get_char(i) == ' ' {
            assert(text@.skip(7)[i - 7] == ' ');
            assert(text@.skip(7).contains(' '));
            return None;
        }
        i += 1;
    }
    let token = text.substring_char(7, n);
    assert(token@ == text@.skip(7));
    Some(token)
}

/// Finds the user of a request from its authorization header.
pub fn authenticate(authorization: Option<&str>) -> (user: Result<User, AuthError>)
    ensures
        match user {
            Ok(found) => authenticated(
                match authorization {
                    Some(text) => Some(text@),
                    None => None,
                },
            ) == Ok::<Seq<char>, AuthError>(found.name@),
            Err(error) => authenticated(
                match authorization {
                    Some(text) => Some(text@),
                    None => None,
                },
            ) == Err::<Seq<char>, AuthError>(error),
        },
{
    let header = match authorization {
        Some(header) => header,
        None => {
            return Err(AuthError::MissingHeader);
        },
    };
    let token = match token_of(trim(header)) {
        Some(token) => token,
        None => {
            return Err(AuthError::InvalidHeader);
        },
    };
    match user_of_token(token) {
        Some(name) => Ok(User { name }),
        None => Err(AuthError::InvalidToken),
    }
}

} // verus!
