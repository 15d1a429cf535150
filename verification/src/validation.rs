//! Input validation for the fields of a user's profile.
//!
//! Each check returns the reason for a refusal as a message for the user.
//! Lengths are counted in bytes of UTF-8, as a string's length is.

use crate::text::{chars_of, push_char};
use vstd::prelude::*;
use vstd::utf8::encode_utf8;

verus! {

/// Maximum lengths for various fields.
pub const MAX_USER_NAME_LENGTH: usize = 100;

pub const MAX_USER_ID_LENGTH: usize = 128;

pub const MIN_USER_ID_LENGTH: usize = 3;

pub const MAX_PHONE_LENGTH: usize = 20;

pub const MIN_PHONE_DIGITS: usize = 7;

pub const MAX_PHONE_DIGITS: usize = 15;

pub const MAX_ABOUT_LENGTH: usize = 500;

pub const MAX_AVATAR_URL_LENGTH: usize = 2048;

/// The length of a text in bytes of UTF-8.
pub open spec fn byte_len(text: Seq<char>) -> nat {
    encode_utf8(text).len()
}

/// Whether a character is a control code: one of U+0000 to U+001F or U+007F to U+009F.
pub open spec fn control(c: char) -> bool {
    c as u32 <= 0x1F || 0x7F <= c as u32 <= 0x9F
}

/// Whether a character is one of the ten ASCII digits.
pub open spec fn ascii_digit(c: char) -> bool {
    '0' <= c <= '9'
}

/// Whether a character is an ASCII letter or an ASCII digit.
pub open spec fn ascii_alphanumeric(c: char) -> bool {
    'a' <= c <= 'z' || 'A' <= c <= 'Z' || '0' <= c <= '9'
}

/// Whether Unicode counts a character as alphabetic or numeric.
pub uninterp spec fn alphanumeric(c: char) -> bool;

/// `char::is_alphanumeric`: whether Unicode counts the character as alphabetic or
/// numeric. Among the ASCII characters those are the letters and the digits.
#[verifier::external_body]
fn is_alphanumeric(c: char) -> (answer: bool)
    ensures
        answer == alphanumeric(c),
        c as u32 <= 0x7F ==> answer == ascii_alphanumeric(c),
{
    c.is_alphanumeric()
}

/// Whether a character may stand in a user ID.
pub open spec fn user_id_char(c: char) -> bool {
    alphanumeric(c) || c == '_' || c == '-'
}

/// Whether a character is one that phone numbers are formatted with and that
/// counts for nothing: a space, a hyphen or a parenthesis.
pub open spec fn phone_filler(c: char) -> bool {
    c == ' ' || c == '-' || c == '(' || c == ')'
}

/// Whether a character may stand in a phone number as the user types it.
pub open spec fn phone_char(c: char) -> bool {
    ascii_digit(c) || c == ' ' || c == '+' || c == '(' || c == ')' || c == '-'
}

/// The reason for which a user name is refused, if it is.
pub open spec fn user_name_error(name: Seq<char>) -> Option<Seq<char>> {
    if name.len() == 0 {
        Some("Name cannot be empty"@)
    } else if byte_len(name) > MAX_USER_NAME_LENGTH {
        Some("Name too long (max 100 characters)"@)
    } else if exists|i: int| 0 <= i < name.len() && control(name[i]) {
        Some("Name contains invalid characters"@)
    } else {
        None
    }
}

/// The reason for which a user ID is refused, if it is.
pub open spec fn user_id_error(id: Seq<char>) -> Option<Seq<char>> {
    if id.len() == 0 {
        Some("User ID cannot be empty"@)
    } else if byte_len(id) < MIN_USER_ID_LENGTH {
        Some("User ID too short (min 3 characters)"@)
    } else if byte_len(id) > MAX_USER_ID_LENGTH {
        Some("User ID too long (max 128 characters)"@)
    } else if !alphanumeric(id[0]) {
        Some("User ID must start with a letter or number"@)
    } else if exists|i: int| 0 <= i < id.len() && !user_id_char(id[i]) {
        Some("User ID can only contain letters, numbers, underscores, and hyphens"@)
    } else {
        None
    }
}

/// A phone number without its spaces, hyphens and parentheses.
pub open spec fn normalized_phone(phone: Seq<char>) -> Seq<char> {
    phone.filter(|c: char| !phone_filler(c))
}

/// The digits of a normalized phone number: what follows the leading plus sign,
/// or all of it where there is none.
pub open spec fn phone_digits(normalized: Seq<char>) -> Seq<char> {
    if normalized.len() > 0 && normalized[0] == '+' {
        normalized.skip(1)
    } else {
        normalized
    }
}

/// The normalized form of a phone number that serves as a user ID, or the
/// reason for which it is refused.
pub open spec fn phone_id_verdict(phone: Seq<char>) -> Result<Seq<char>, Seq<char>> {
    let normalized = normalized_phone(phone);
    let digits = phone_digits(normalized);
    if normalized.len() == 0 {
        Err("Phone number cannot be empty"@)
    } else if exists|i: int| 0 <= i < digits.len() && !ascii_digit(digits[i]) {
        Err("Phone number can only contain digits (and optional leading +)"@)
    } else if digits.len() < MIN_PHONE_DIGITS {
        Err("Phone number too short (min 7 digits)"@)
    } else if digits.len() > MAX_PHONE_DIGITS {
        Err("Phone number too long (max 15 digits)"@)
    } else {
        Ok(normalized)
    }
}

/// The reason for which a phone number is refused, if it is.
pub open spec fn phone_error(phone: Option<Seq<char>>) -> Option<Seq<char>> {
    match phone {
        None => None,
        Some(p) => if byte_len(p) > MAX_PHONE_LENGTH {
            Some("Phone number too long (max 20 characters)"@)
        } else if exists|i: int| 0 <= i < p.len() && !phone_char(p[i]) {
            Some("Phone number contains invalid characters"@)
        } else {
            None
        },
    }
}

/// The reason for which an about text is refused, if it is.
pub open spec fn about_error(about: Option<Seq<char>>) -> Option<Seq<char>> {
    match about {
        Some(a) if byte_len(a) > MAX_ABOUT_LENGTH => Some("About text too long (max 500 characters)"@),
        _ => None,
    }
}

/// The reason for which a URL is refused, if it is.
pub open spec fn url_error(url: Option<Seq<char>>) -> Option<Seq<char>> {
    match url {
        Some(u) if byte_len(u) > MAX_AVATAR_URL_LENGTH => Some("URL too long (max 2048 characters)"@),
        _ => None,
    }
}

/// Whether a check's outcome is the one that the rule gives.
pub open spec fn agrees(outcome: Result<(), String>, error: Option<Seq<char>>) -> bool {
    match outcome {
        Ok(_) => error is None,
        Err(message) => error == Some(message@),
    }
}

/// The length of a string in bytes.
fn utf8_len(text: &str) -> (length: usize)
    ensures
        length == byte_len(text@),
{
    text.as_bytes().len()
}

fn is_control(c: char) -> (answer: bool)
    ensures
        answer == control(c),
{
    c <= '\u{1f}' || ('\u{7f}' <= c && c <= '\u{9f}')
}

fn is_ascii_digit(c: char) -> (answer: bool)
    ensures
        answer == ascii_digit(c),
{
    '0' <= c && c <= '9'
}

fn is_phone_filler(c: char) -> (answer: bool)
    ensures
        answer == phone_filler(c),
{
    c == ' ' || c == '-' || c == '(' || c == ')'
}

/// Validate a user name: not empty, at most 100 bytes, no control character.
#[verifier::loop_isolation(false)]
pub fn validate_user_name(name: &str) -> (outcome: Result<(), String>)
    ensures
        agrees(outcome, user_name_error(name@)),
{
    if name.is_empty() {
        return Err("Name cannot be empty".to_owned());
    }
    if utf8_len(name) > MAX_USER_NAME_LENGTH {
        return Err("Name too long (max 100 characters)".to_owned());
    }
    let chars = chars_of(name);
    let count = chars.len();
    let mut i: usize = 0;
    while i < count
        invariant
            i <= count,
            count == name@.len(),
            forall|j: int| 0 <= j < i ==> !control(name@[j]),
        decreases count - i,
    {
        if is_control(chars[i]) {
            assert(control(name@[i as int]));
            return Err("Name contains invalid characters".to_owned());
        }
        i += 1;
    }
    Ok(())
}

/// Validate a user ID: 3 to 128 bytes of letters, numbers, underscores and
/// hyphens, the first of them a letter or a number.
#[verifier::loop_isolation(false)]
pub fn validate_user_id(id: &str) -> (outcome: Result<(), String>)
    ensures
        agrees(outcome, user_id_error(id@)),
{
    if id.is_empty() {
        return Err("User ID cannot be empty".to_owned());
    }
    if utf8_len(id) < MIN_USER_ID_LENGTH {
        return Err("User ID too short (min 3 characters)".to_owned());
    }
    if utf8_len(id) > MAX_USER_ID_LENGTH {
        return Err("User ID too long (max 128 characters)".to_owned());
    }
    let chars = chars_of(id);
    let count = chars.len();
    if !is_alphanumeric(chars[0]) {
        return Err("User ID must start with a letter or number".to_owned());
    }
    let mut i: usize = 0;
    while i < count
        invariant
            i <= count,
            count == id@.len(),
            forall|j: int| 0 <= j < i ==> user_id_char(id@[j]),
        decreases count - i,
    {
        let c = chars[i];
        if !(is_alphanumeric(c) || c == '_' || c == '-') {
            assert(!user_id_char(id@[i as int]));
            return Err("User ID can only contain letters, numbers, underscores, and hyphens".to_owned());
        }
        i += 1;
    }
    Ok(())
}

/// Validate a phone number for use as a unique user ID.
///
/// Spaces, hyphens and parentheses are stripped first. What is left must be an
/// optional `+` followed by 7 to 15 digits, and is returned.
#[verifier::loop_isolation(false)]
pub fn validate_phone_id(phone: &str) -> (outcome: Result<String, String>)
    ensures
        match outcome {
            Ok(normalized) => phone_id_verdict(phone@) == Ok::<Seq<char>, Seq<char>>(normalized@),
            Err(message) => phone_id_verdict(phone@) == Err::<Seq<char>, Seq<char>>(message@),
        },
{
    if phone.is_empty() {
        proof {
            reveal(Seq::filter);
        }
        return Err("Phone number cannot be empty".to_owned());
    }
    let ghost keep = |c: char| !phone_filler(c);
    let chars = chars_of(phone);
    let count = chars.len();
    let mut normalized = String::new();
    let mut kept: usize = 0;
    let mut i: usize = 0;
    while i < count
        invariant
            i <= count,
            count == phone@.len(),
            keep == |c: char| !phone_filler(c),
            normalized@ == phone@.take(i as int).filter(keep),
            kept == normalized@.len(),
            kept <= i,
        decreases count - i,
    {
        let c = chars[i];
        proof {
            let prefix = phone@.take(i as int);
            let next = phone@.take(i + 1);
            assert(next == prefix.push(c));
            assert(next.drop_last() == prefix);
            reveal(Seq::filter);
            assert(next.filter(keep) == if keep(c) {
                prefix.filter(keep).push(c)
            } else {
                prefix.filter(keep)
            });
        }
        if !is_phone_filler(c) {
            push_char(&mut normalized, c);
            kept += 1;
        }
        i += 1;
    }
    proof {
        assert(phone@.take(count as int) == phone@);
    }
    if kept == 0 {
        return Err("Phone number cannot be empty".to_owned());
    }
    let text = chars_of(normalized.as_str());
    let start: usize = if text[0] == '+' {
        1
    } else {
        0
    };
    let ghost digits = phone_digits(normalized@);
    let mut k: usize = start;
    while k < kept
        invariant
            start <= k <= kept,
            kept == text@.len(),
            text@ == normalized@,
            digits == text@.skip(start as int),
            forall|j: int| 0 <= j < k - start ==> ascii_digit(digits[j]),
        decreases kept - k,
    {
        if !is_ascii_digit(text[k]) {
            proof {
                assert(digits[k - start] == text@[k as int]);
                assert(!ascii_digit(digits[k - start]));
            }
            return Err("Phone number can only contain digits (and optional leading +)".to_owned());
        }
        proof {
            assert(digits[k - start] == text@[k as int]);
        }
        k += 1;
    }
    let digit_count = kept - start;
    if digit_count < MIN_PHONE_DIGITS {
        return Err("Phone number too short (min 7 digits)".to_owned());
    }
    if digit_count > MAX_PHONE_DIGITS {
        return Err("Phone number too long (max 15 digits)".to_owned());
    }
    Ok(normalized)
}

/// Validate a phone number as the user types it: optional, at most 20 bytes of
/// digits, plus signs, spaces, parentheses and hyphens.
#[verifier::loop_isolation(false)]
pub fn validate_phone(phone: Option<&str>) -> (outcome: Result<(), String>)
    ensures
        agrees(
            outcome,
            phone_error(
                match phone {
                    Some(p) => Some(p@),
                    None => None,
                },
            ),
        ),
{
    match phone {
        Some(p) => {
            if utf8_len(p) > MAX_PHONE_LENGTH {
                return Err("Phone number too long (max 20 characters)".to_owned());
            }
            let chars = chars_of(p);
            let count = chars.len();
            let mut i: usize = 0;
            while i < count
                invariant
                    i <= count,
                    count == p@.len(),
                    forall|j: int| 0 <= j < i ==> phone_char(p@[j]),
                decreases count - i,
            {
                let c = chars[i];
                if !(is_ascii_digit(c) || c == ' ' || c == '+' || c == '(' || c == ')' || c == '-') {
                    assert(!phone_char(p@[i as int]));
                    return Err("Phone number contains invalid characters".to_owned());
                }
                i += 1;
            }
            Ok(())
        },
        None => Ok(()),
    }
}

/// Validate an about text: optional, at most 500 bytes.
pub fn validate_about(about: Option<&str>) -> (outcome: Result<(), String>)
    ensures
        agrees(
            outcome,
            about_error(
                match about {
                    Some(a) => Some(a@),
                    None => None,
                },
            ),
        ),
{
    match about {
        Some(a) => {
            if utf8_len(a) > MAX_ABOUT_LENGTH {
                return Err("About text too long (max 500 characters)".to_owned());
            }
            Ok(())
        },
        None => Ok(()),
    }
}

/// Validate a URL: optional, at most 2048 bytes.
pub fn validate_url(url: Option<&str>) -> (outcome: Result<(), String>)
    ensures
        agrees(
            outcome,
            url_error(
                match url {
                    Some(u) => Some(u@),
                    None => None,
                },
            ),
        ),
{
    match url {
        Some(u) => {
            if utf8_len(u) > MAX_AVATAR_URL_LENGTH {
                return Err("URL too long (max 2048 characters)".to_owned());
            }
            Ok(())
        },
        None => Ok(()),
    }
}

} // verus!
