//! Checks on e-mail addresses and passwords, and password hashing.
use vstd::prelude::*;
use vstd::string::*;

verus! {

/// Whether the character has Unicode's `Lowercase` property.
pub uninterp spec fn char_is_lowercase(c: char) -> bool;

/// Whether the character has Unicode's `Uppercase` property.
pub uninterp spec fn char_is_uppercase(c: char) -> bool;

/// Whether the character is alphabetic or numeric in Unicode's sense.
pub uninterp spec fn char_is_alphanumeric(c: char) -> bool;

/// What a regular expression search of `text` for `pattern` reports: nothing
/// when the pattern does not compile.
pub uninterp spec fn regex_search(pattern: Seq<char>, text: Seq<char>) -> Option<bool>;

/// What bcrypt reports on checking `password` against the stored `hash`:
/// nothing when the hash cannot be read.
pub uninterp spec fn bcrypt_check(password: Seq<char>, hash: Seq<char>) -> Option<bool>;

/// The lowercase form of a string in Unicode's sense.
pub uninterp spec fn lowercase_of(s: Seq<char>) -> Seq<char>;

/// Relies on `char::is_lowercase`.
#[verifier::external_body]
fn lowercase_char(c: char) -> (r: bool)
    ensures
        r == char_is_lowercase(c),
{
    c.is_lowercase()
}

/// Relies on `char::is_uppercase`.
#[verifier::external_body]
fn uppercase_char(c: char) -> (r: bool)
    ensures
        r == char_is_uppercase(c),
{
    c.is_uppercase()
}

/// Relies on `char::is_alphanumeric`.
#[verifier::external_body]
fn alphanumeric_char(c: char) -> (r: bool)
    ensures
        r == char_is_alphanumeric(c),
{
    c.is_alphanumeric()
}

/// Relies on `regex::Regex::new` and `Regex::is_match`: compiles the pattern
/// and searches the text; the answer depends on the two strings alone.
#[verifier::external_body]
fn regex_matches(pattern: &str, text: &str) -> (r: Option<bool>)
    ensures
        r == regex_search(pattern@, text@),
{
    match regex::Regex::new(pattern) {
        Ok(re) => Some(re.is_match(text)),
        Err(_) => None,
    }
}

/// Relies on `bcrypt::verify`: the answer depends on the password and the
/// stored hash alone.
#[verifier::external_body]
pub(crate) fn check_password(password: &str, hash: &str) -> (r: Option<bool>)
    ensures
        r == bcrypt_check(password@, hash@),
{
    bcrypt::verify(password, hash).ok()
}

/// Relies on `bcrypt::hash` at `bcrypt::DEFAULT_COST`: a freshly salted hash,
/// or nothing when the crate reports an error. `bcrypt::verify` recomputes
/// the hash from the salt and cost it stores, so the password checks against
/// any hash made from it.
#[verifier::external_body]
pub(crate) fn hash_password(password: &str) -> (r: Option<String>)
    ensures
        r matches Some(h) ==> bcrypt_check(password@, h@) == Some(true),
{
    bcrypt::hash(password, bcrypt::DEFAULT_COST).ok()
}

/// Relies on `str::to_lowercase`: the result depends on the characters alone.
#[verifier::external_body]
pub(crate) fn to_lowercase(s: &str) -> (r: String)
    ensures
        r@ == lowercase_of(s@),
{
    s.to_lowercase()
}

/// The accepted shape of an e-mail address: a local part of letters, digits
/// and `._%+-`, an `@`, a domain of letters, digits, `.` and `-`, a dot, and a
/// top-level domain of at least two letters.
pub const EMAIL_PATTERN: &'static str = r"^[a-zA-Z0-9._%+-]+@[a-zA-Z0-9.-]+\.[a-zA-Z]{2,}$";

/// Whether the text has the shape of [`EMAIL_PATTERN`].
pub open spec fn spec_is_valid_email(email: Seq<char>) -> bool {
    regex_search(EMAIL_PATTERN@, email) == Some(true)
}

/// Checks an e-mail address against [`EMAIL_PATTERN`].
pub fn is_valid_email(email: &str) -> (r: bool)
    ensures
        r == spec_is_valid_email(email@),
{
    match regex_matches(EMAIL_PATTERN, email) {
        Some(found) => found,
        None => false,
    }
}

/// Whether the text holds a lowercase letter.
pub open spec fn has_lowercase(s: Seq<char>) -> bool {
    exists|i: int| 0 <= i < s.len() && char_is_lowercase(#[trigger] s[i])
}

/// Whether the text holds an uppercase letter.
pub open spec fn has_uppercase(s: Seq<char>) -> bool {
    exists|i: int| 0 <= i < s.len() && char_is_uppercase(#[trigger] s[i])
}

/// Whether the text holds an ASCII digit.
pub open spec fn has_digit(s: Seq<char>) -> bool {
    exists|i: int| 0 <= i < s.len() && is_ascii_digit(#[trigger] s[i])
}

/// Whether the text holds a character that is neither a letter nor a digit.
pub open spec fn has_special(s: Seq<char>) -> bool {
    exists|i: int| 0 <= i < s.len() && !char_is_alphanumeric(#[trigger] s[i])
}

/// An ASCII decimal digit.
pub open spec fn is_ascii_digit(c: char) -> bool {
    '0' <= c && c <= '9'
}

/// The number of bytes of the character in UTF-8.
pub open spec fn utf8_width(c: char) -> nat {
    if (c as u32) < 0x80 {
        1
    } else if (c as u32) < 0x800 {
        2
    } else if (c as u32) < 0x10000 {
        3
    } else {
        4
    }
}

/// The number of bytes of the text in UTF-8.
pub open spec fn utf8_len(s: Seq<char>) -> nat
    decreases s.len(),
{
    if s.len() == 0 {
        0
    } else {
        utf8_len(s.drop_last()) + utf8_width(s.last())
    }
}

/// A strong password is at least eight bytes long in UTF-8 and holds a
/// lowercase letter, an uppercase letter, an ASCII digit and a character that
/// is neither a letter nor a digit.
pub open spec fn spec_is_strong_password(password: Seq<char>) -> bool {
    &&& utf8_len(password) >= 8
    &&& has_lowercase(password)
    &&& has_uppercase(password)
    &&& has_digit(password)
    &&& has_special(password)
}

/// The number of bytes of the character in UTF-8.
fn char_width(c: char) -> (r: usize)
    ensures
        r == utf8_width(c),
{
    if (c as u32) < 0x80 {
        1
    } else if (c as u32) < 0x800 {
        2
    } else if (c as u32) < 0x10000 {
        3
    } else {
        4
    }
}

/// Checks the strength rules of [`spec_is_strong_password`].
pub fn is_strong_password(password: &str) -> (r: bool)
    ensures
        r == spec_is_strong_password(password@),
{
    let n = password.unicode_len();
    let mut bytes: usize = 0;
    let mut lower = false;
    let mut upper = false;
    let mut digit = false;
    let mut special = false;
    let mut i: usize = 0;
    while i < n
        invariant
            n == password@.len(),
            i <= n,
            bytes <= 11,
            (bytes >= 8) == (utf8_len(password@.subrange(0, i as int)) >= 8),
            bytes < 8 ==> bytes == utf8_len(password@.subrange(0, i as int)),
            lower == has_lowercase(password@.subrange(0, i as int)),
            upper == has_uppercase(password@.subrange(0, i as int)),
            digit == has_digit(password@.subrange(0, i as int)),
            special == has_special(password@.subrange(0, i as int)),
        decreases n - i,
    {
        let c = password.get_char(i);
        let ghost prev = password@.subrange(0, i as int);
        let ghost next = password@.subrange(0, i + 1);
        assert(next =~= prev.push(c));
        assert(next.drop_last() =~= prev);
        if bytes < 8 {
            bytes = bytes + char_width(c);
        }
        if lowercase_char(c) {
            lower = true;
        }
        if uppercase_char(c) {
            upper = true;
        }
        if '0' <= c && c <= '9' {
            digit = true;
        }
        if !alphanumeric_char(c) {
            special = true;
        }
        proof {
            assert(next[i as int] == c);
            assert forall|k: int| 0 <= k < i implies next[k] == prev[k] by {}
        }
        i = i + 1;
    }
    assert(password@.subrange(0, n as int) =~= password@);
    bytes >= 8 && lower && upper && digit && special
}

} // verus!
